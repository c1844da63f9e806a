use utopia_kernel::console::Console;
use utopia_kernel::error::KernelError;
use utopia_kernel::geometry::FramebufferDescriptor;
use utopia_kernel::pixel::PixelFormat;
use utopia_kernel::shared::{try_write, write_best_effort, write_under};

#[test]
fn best_effort_write_returns_at_once_when_the_lock_is_held() {
    let d = FramebufferDescriptor::new(80, 32, PixelFormat::Rgb8);
    let mut memory = vec![0u8; 80 * 32 * 3];
    let mut console = Console::new();
    assert_eq!(console.initialize(Some(d), &mut memory[..]), Ok(()));
    let lock = spin::Mutex::new(console);
    {
        let mut holder = lock.lock();
        assert_eq!(holder.write(b"ab"), Ok(()));
        write_best_effort(&lock, b"panic!");
        assert_eq!(try_write(&lock, b"panic!"), None);
        assert_eq!(holder.cursor(), Some((0, 2)));
        assert!(lock.is_locked());
    }
    assert!(!lock.is_locked());
    assert_eq!(lock.lock().cursor(), Some((0, 2)));
    assert_eq!(lock.lock().read_pixel(2 * 8 + 1, 1), Some(vec![0, 0, 0]));
}

#[test]
fn best_effort_write_draws_when_the_lock_is_free() {
    let d = FramebufferDescriptor::new(80, 32, PixelFormat::Rgb8);
    let mut memory = vec![0u8; 80 * 32 * 3];
    let mut console = Console::new();
    assert_eq!(console.initialize(Some(d), &mut memory[..]), Ok(()));
    let lock = spin::Mutex::new(console);
    write_best_effort(&lock, b"HI\n");
    assert!(!lock.is_locked());
    assert_eq!(lock.lock().cursor(), Some((1, 0)));
    assert_eq!(lock.lock().read_pixel(1, 1), Some(vec![255, 255, 255]));
    assert_eq!(try_write(&lock, b"x"), Some(Ok(())));
    assert!(!lock.is_locked());
    assert_eq!(lock.lock().cursor(), Some((1, 1)));
}

#[test]
fn best_effort_write_swallows_the_error_of_a_console_that_is_not_ready() {
    let lock = spin::Mutex::new(Console::new());
    write_best_effort(&lock, b"early");
    assert_eq!(try_write(&lock, b"early"), Some(Err(KernelError::FrameBufferUnavailable)));
    assert!(!lock.is_locked());
    assert!(!lock.lock().is_ready());
}

#[test]
fn writing_under_a_guard_draws_and_writing_under_none_does_not() {
    let d = FramebufferDescriptor::new(80, 32, PixelFormat::Rgb8);
    let mut memory = vec![0u8; 80 * 32 * 3];
    let mut console = Console::new();
    assert_eq!(console.initialize(Some(d), &mut memory[..]), Ok(()));
    let lock = spin::Mutex::new(console);
    assert_eq!(write_under(lock.try_lock(), b"ab"), Some(Ok(())));
    assert!(!lock.is_locked());
    assert_eq!(write_under(None, b"cd"), None);
    let holder = lock.lock();
    assert_eq!(write_under(lock.try_lock(), b"ef"), None);
    assert_eq!(holder.cursor(), Some((0, 2)));
}
