//! The emulator's exit device.

use vstd::prelude::*;

verus! {

/// Value written to the exit port when a run succeeded.
pub const EXIT_SUCCESS: u32 = 0x10;

/// Value written to the exit port when a run failed.
pub const EXIT_FAILED: u32 = 0x11;

/// I/O port of the emulator's exit device.
pub const EXIT_PORT: u16 = 0xf4;

} // verus!
