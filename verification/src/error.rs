//! The kernel's error type and the fallible-write interface built on it.

use vstd::prelude::*;
use vstd::std_specs::convert::FromSpecImpl;

verus! {

/// Everything that can go wrong in the kernel's early output path.
#[derive(Debug, Clone, Copy, PartialEq, Eq, Structural)]
pub enum KernelError {
    /// The display could not be brought up.
    VgaInitFailed,
    /// The serial port could not be brought up, or was used before it was.
    SerialInitFailed,
    /// A logger was already installed.
    LoggerInitFailed,
    /// No usable framebuffer was supplied, or the console was used before one was.
    FrameBufferUnavailable,
    /// The caller's formatting machinery reported a failure.
    WriteFailed,
    /// An allocation failed.
    OutOfMemory,
    /// An argument was outside its domain.
    InvalidParameter,
    /// An operation did not finish in time.
    Timeout,
    /// A device was driven in a way it does not allow, such as binding the
    /// console a second time.
    HardwareError,
    /// None of the above.
    Unknown,
}

/// Result of a kernel operation.
pub type KernelResult<T> = Result<T, KernelError>;

impl KernelError {
    /// The human-readable description of each error.
    pub open spec fn message_text(self) -> Seq<char> {
        match self {
            KernelError::VgaInitFailed => "VGA initialization failed"@,
            KernelError::SerialInitFailed => "Serial port initialization failed"@,
            KernelError::LoggerInitFailed => "Logger initialization failed"@,
            KernelError::FrameBufferUnavailable => "Frame buffer is not available"@,
            KernelError::WriteFailed => "Write operation failed"@,
            KernelError::OutOfMemory => "Out of memory"@,
            KernelError::InvalidParameter => "Invalid parameter"@,
            KernelError::Timeout => "Operation timed out"@,
            KernelError::HardwareError => "Hardware error"@,
            KernelError::Unknown => "Unknown error"@,
        }
    }

    /// Describes the error in words, for log lines and panic messages.
    pub fn message(&self) -> (text: &'static str)
        ensures
            text@ == self.message_text(),
    {
        match self {
            KernelError::VgaInitFailed => "VGA initialization failed",
            KernelError::SerialInitFailed => "Serial port initialization failed",
            KernelError::LoggerInitFailed => "Logger initialization failed",
            KernelError::FrameBufferUnavailable => "Frame buffer is not available",
            KernelError::WriteFailed => "Write operation failed",
            KernelError::OutOfMemory => "Out of memory",
            KernelError::InvalidParameter => "Invalid parameter",
            KernelError::Timeout => "Operation timed out",
            KernelError::HardwareError => "Hardware error",
            KernelError::Unknown => "Unknown error",
        }
    }
}

/// A sink for text whose writes report failure as a [`KernelError`] instead
/// of panicking.
pub trait SafeWrite {
    /// Writes `s`.
    fn safe_write_str(&mut self, s: &str) -> KernelResult<()>;

    /// Formats `args` and writes the text that results.
    fn safe_write_fmt(&mut self, args: core::fmt::Arguments<'_>) -> KernelResult<()>;
}

impl From<core::fmt::Error> for KernelError {
    /// A failure of the formatting machinery is a failed write.
    fn from(_error: core::fmt::Error) -> (converted: KernelError) {
        KernelError::WriteFailed
    }
}

impl FromSpecImpl<core::fmt::Error> for KernelError {
    /// The conversion is specified.
    open spec fn obeys_from_spec() -> bool {
        true
    }

    /// Every formatting failure converts to [`KernelError::WriteFailed`].
    open spec fn from_spec(_error: core::fmt::Error) -> KernelError {
        KernelError::WriteFailed
    }
}

} // verus!
