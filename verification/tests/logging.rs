use utopia_kernel::console::Console;
use utopia_kernel::error::KernelError;
use utopia_kernel::geometry::FramebufferDescriptor;
use utopia_kernel::logging::{
    enabled, format_record, init, log_rendered, passes, InitAction, InitEvent,
};
use utopia_kernel::pixel::PixelFormat;
use utopia_kernel::serial::SerialLine;

const LEVELS: [log::Level; 5] = [
    log::Level::Error,
    log::Level::Warn,
    log::Level::Info,
    log::Level::Debug,
    log::Level::Trace,
];

#[test]
fn every_level_is_enabled() {
    for level in LEVELS {
        assert!(enabled(level));
    }
}

#[test]
fn a_level_passes_a_ceiling_that_is_at_least_as_verbose() {
    for (i, level) in LEVELS.iter().enumerate() {
        for (j, ceiling) in LEVELS.iter().enumerate() {
            assert_eq!(passes(*level, *ceiling), i <= j);
        }
    }
    assert!(!passes(log::Level::Debug, log::Level::Info));
    assert!(passes(log::Level::Info, log::Level::Debug));
    assert!(!passes(log::Level::Warn, log::Level::Error));
}

#[test]
fn a_record_is_formatted_as_level_in_brackets_then_message_then_line_feed() {
    assert_eq!(format_record(log::Level::Info, "VGA initialized"), b"[INFO] VGA initialized\n".to_vec());
    assert_eq!(format_record(log::Level::Error, "[PANIC] boom"), b"[ERROR] [PANIC] boom\n".to_vec());
    assert_eq!(format_record(log::Level::Warn, ""), b"[WARN] \n".to_vec());
    assert_eq!(format_record(log::Level::Debug, "d"), b"[DEBUG] d\n".to_vec());
    assert_eq!(format_record(log::Level::Trace, "\u{e9}"), vec![
        b'[', b'T', b'R', b'A', b'C', b'E', b']', b' ', 0xc3, 0xa9, b'\n'
    ]);
}

#[test]
fn a_record_goes_to_the_screen_and_to_the_serial_line() {
    let d = FramebufferDescriptor::new(160, 32, PixelFormat::Rgb8);
    let mut memory = vec![0u8; 160 * 32 * 3];
    let mut console = Console::new();
    assert_eq!(console.initialize(Some(d), &mut memory[..]), Ok(()));
    let lock = spin::Mutex::new(console);
    let mut serial = SerialLine::new();
    serial.open();
    log_rendered(&lock, &mut serial, log::Level::Info, Ok(String::from("up")));
    assert_eq!(serial.take_pending(), b"[INFO] up\n".to_vec());
    assert_eq!(lock.lock().cursor(), Some((1, 0)));
    assert_eq!(lock.lock().read_pixel(2, 1), Some(vec![255, 255, 255]));
}

#[test]
fn a_record_is_mirrored_on_the_serial_line_while_the_console_is_held() {
    let d = FramebufferDescriptor::new(160, 32, PixelFormat::Rgb8);
    let mut memory = vec![0u8; 160 * 32 * 3];
    let mut console = Console::new();
    assert_eq!(console.initialize(Some(d), &mut memory[..]), Ok(()));
    let lock = spin::Mutex::new(console);
    let mut serial = SerialLine::new();
    serial.open();
    {
        let holder = lock.lock();
        log_rendered(&lock, &mut serial, log::Level::Error, Ok(String::from("[PANIC] x")));
        assert_eq!(holder.cursor(), Some((0, 0)));
    }
    assert_eq!(serial.take_pending(), b"[ERROR] [PANIC] x\n".to_vec());
}

#[test]
fn a_record_is_dropped_where_it_cannot_go() {
    let lock = spin::Mutex::new(Console::new());
    let mut serial = SerialLine::new();
    log_rendered(&lock, &mut serial, log::Level::Info, Ok(String::from("lost")));
    assert!(!lock.lock().is_ready());
    serial.open();
    assert_eq!(serial.take_pending(), Vec::<u8>::new());
    log_rendered(&lock, &mut serial, log::Level::Info, Err(core::fmt::Error));
    assert_eq!(serial.take_pending(), Vec::<u8>::new());
}

#[test]
fn logging_comes_up_serial_first() {
    assert_eq!(init(InitEvent::Begin), InitAction::SetUpSerial);
    assert_eq!(init(InitEvent::SerialReady(Ok(()))), InitAction::InstallLogger);
    assert_eq!(init(InitEvent::LoggerInstalled(Ok(()))), InitAction::Finish(Ok(())));
}

#[test]
fn a_serial_failure_ends_bring_up_with_its_own_error() {
    assert_eq!(
        init(InitEvent::SerialReady(Err(KernelError::SerialInitFailed))),
        InitAction::Finish(Err(KernelError::SerialInitFailed))
    );
    assert_eq!(
        init(InitEvent::SerialReady(Err(KernelError::Timeout))),
        InitAction::Finish(Err(KernelError::Timeout))
    );
}

#[test]
fn a_second_logger_ends_bring_up_with_logger_init_failed() {
    let first = log::set_logger(log::logger());
    assert!(first.is_ok());
    let second = log::set_logger(log::logger());
    assert!(second.is_err());
    assert_eq!(init(InitEvent::LoggerInstalled(first)), InitAction::Finish(Ok(())));
    assert_eq!(
        init(InitEvent::LoggerInstalled(second)),
        InitAction::Finish(Err(KernelError::LoggerInitFailed))
    );
}
