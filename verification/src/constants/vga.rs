//! Geometry and colours of the text console.

use vstd::prelude::*;

verus! {

/// Width of one character cell, in pixels.
pub const CHAR_WIDTH: usize = 8;

/// Height of one character cell, in pixels.
pub const CHAR_HEIGHT: usize = 16;

/// Colour of the set bits of a glyph: white, as `0x00RRGGBB`.
pub const FOREGROUND_COLOR: u32 = 0x00FFFFFF;

/// Colour of the clear bits of a glyph and of an empty screen: black, as `0x00RRGGBB`.
pub const BACKGROUND_COLOR: u32 = 0x00000000;

} // verus!
