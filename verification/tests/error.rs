use utopia_kernel::error::{KernelError, KernelResult};

#[test]
fn every_error_has_its_message() {
    assert_eq!(KernelError::VgaInitFailed.message(), "VGA initialization failed");
    assert_eq!(KernelError::SerialInitFailed.message(), "Serial port initialization failed");
    assert_eq!(KernelError::LoggerInitFailed.message(), "Logger initialization failed");
    assert_eq!(KernelError::FrameBufferUnavailable.message(), "Frame buffer is not available");
    assert_eq!(KernelError::WriteFailed.message(), "Write operation failed");
    assert_eq!(KernelError::OutOfMemory.message(), "Out of memory");
    assert_eq!(KernelError::InvalidParameter.message(), "Invalid parameter");
    assert_eq!(KernelError::Timeout.message(), "Operation timed out");
    assert_eq!(KernelError::HardwareError.message(), "Hardware error");
    assert_eq!(KernelError::Unknown.message(), "Unknown error");
}

#[test]
fn a_formatting_error_converts_to_a_failed_write() {
    assert_eq!(KernelError::from(core::fmt::Error), KernelError::WriteFailed);
    let converted: KernelError = core::fmt::Error.into();
    assert_eq!(converted, KernelError::WriteFailed);
}

#[test]
fn question_mark_converts_a_formatting_error() {
    fn failing() -> KernelResult<()> {
        Err(core::fmt::Error)?;
        Ok(())
    }
    assert_eq!(failing(), Err(KernelError::WriteFailed));
}

#[test]
fn errors_compare_and_copy() {
    let error = KernelError::Timeout;
    let copy = error;
    assert_eq!(error, copy);
    assert_ne!(error, KernelError::Unknown);
}
