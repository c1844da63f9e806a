//! Extent of the bitmap font.

use vstd::prelude::*;

verus! {

/// First byte value that has a glyph of its own (the space).
pub const ASCII_PRINTABLE_START: usize = 32;

/// One past the last byte value that has a glyph of its own.
pub const ASCII_PRINTABLE_END: usize = 127;

/// Number of glyphs in the font table.
pub const FONT_CHAR_COUNT: usize = 96;

} // verus!
