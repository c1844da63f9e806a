use utopia_kernel::constants::serial::COM1_BASE;
use utopia_kernel::error::{KernelError, SafeWrite};
use utopia_kernel::serial::SerialLine;

#[test]
fn first_serial_port_is_at_its_usual_address() {
    assert_eq!(COM1_BASE, 0x3f8);
}

#[test]
fn new_line_is_closed_and_empty() {
    let mut line = SerialLine::new();
    assert!(!line.is_open());
    assert_eq!(line.take_pending(), Vec::<u8>::new());
}

#[test]
fn send_before_the_port_is_set_up_fails_and_queues_nothing() {
    let mut line = SerialLine::new();
    assert_eq!(line.send(b"x"), Err(KernelError::SerialInitFailed));
    assert_eq!(line.safe_write_str("x"), Err(KernelError::SerialInitFailed));
    assert_eq!(
        line.send_rendered(Ok(String::from("x"))),
        Err(KernelError::SerialInitFailed)
    );
    assert_eq!(
        line.send_rendered(Err(core::fmt::Error)),
        Err(KernelError::SerialInitFailed)
    );
    assert!(!line.is_open());
    line.open();
    assert_eq!(line.take_pending(), Vec::<u8>::new());
}

#[test]
fn opened_line_queues_bytes_in_order() {
    let mut line = SerialLine::new();
    line.open();
    assert!(line.is_open());
    assert_eq!(line.send(b"ab"), Ok(()));
    assert_eq!(line.safe_write_str("c\n"), Ok(()));
    assert_eq!(line.send_rendered(Ok(format!("{}-{}", 1, 2))), Ok(()));
    assert_eq!(line.take_pending(), b"abc\n1-2".to_vec());
    assert!(line.is_open());
    assert_eq!(line.take_pending(), Vec::<u8>::new());
    assert_eq!(line.send(&[8, 0x7f, 0xff]), Ok(()));
    assert_eq!(line.take_pending(), vec![8, 0x7f, 0xff]);
}

#[test]
fn formatting_failure_is_a_failed_write_and_queues_nothing() {
    let mut line = SerialLine::new();
    line.open();
    assert_eq!(line.send(b"a"), Ok(()));
    assert_eq!(line.send_rendered(Err(core::fmt::Error)), Err(KernelError::WriteFailed));
    assert_eq!(line.take_pending(), b"a".to_vec());
}

#[test]
fn text_is_queued_as_its_utf8_bytes() {
    let mut line = SerialLine::new();
    line.open();
    assert_eq!(line.safe_write_str("\u{e9}"), Ok(()));
    assert_eq!(line.take_pending(), vec![0xc3, 0xa9]);
}
