//! How a run inside the emulator reports its result.

use vstd::prelude::*;
use crate::constants::qemu::{EXIT_FAILED, EXIT_SUCCESS};

verus! {

/// The result of a run, as the emulator's exit device understands it.
#[derive(Debug, Clone, Copy, PartialEq, Eq, Structural)]
pub enum QemuExitCode {
    /// The run went well.
    Success,
    /// The run failed.
    Failed,
}

impl QemuExitCode {
    /// The value that is written to the exit port.
    pub open spec fn spec_code(self) -> u32 {
        match self {
            QemuExitCode::Success => EXIT_SUCCESS,
            QemuExitCode::Failed => EXIT_FAILED,
        }
    }

    /// The value that is written to the exit port.
    #[verifier::when_used_as_spec(spec_code)]
    pub fn code(self) -> (value: u32)
        ensures
            value == self.spec_code(),
    {
        match self {
            QemuExitCode::Success => EXIT_SUCCESS,
            QemuExitCode::Failed => EXIT_FAILED,
        }
    }
}

} // verus!
