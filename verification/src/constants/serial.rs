//! Serial port numbers.

use vstd::prelude::*;

verus! {

/// I/O base port of the first serial line (COM1).
pub const COM1_BASE: u16 = 0x3F8;

} // verus!
