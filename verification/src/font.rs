//! The bitmap font: one 8-by-16 glyph for each printable ASCII byte, and a
//! placeholder box for every other byte.
//!
//! The lookup is total. Bytes from 32 up to, but not including, 127 index the
//! table directly; every byte outside that range resolves to the last entry,
//! a hollow box.

use vstd::prelude::*;
use crate::constants::font::{ASCII_PRINTABLE_END, ASCII_PRINTABLE_START, FONT_CHAR_COUNT};
use crate::constants::vga::{CHAR_HEIGHT, CHAR_WIDTH};

verus! {

/// Index in the font table of the glyph drawn for bytes that have none of
/// their own.
pub const FALLBACK_GLYPH: usize = 95;

/// The font. Each glyph is sixteen rows, top row first; in each row the most
/// significant bit is the leftmost pixel.
pub const FONT: [[u8; 16]; 96] = [
    // space
    [0x00, 0x00, 0x00, 0x00, 0x00, 0x00, 0x00, 0x00, 0x00, 0x00, 0x00, 0x00, 0x00, 0x00, 0x00, 0x00],
    // '!'
    [0x00, 0x10, 0x10, 0x10, 0x10, 0x10, 0x10, 0x10, 0x10, 0x10, 0x10, 0x00, 0x00, 0x10, 0x10, 0x00],
    // '"'
    [0x00, 0x28, 0x28, 0x28, 0x28, 0x28, 0x28, 0x00, 0x00, 0x00, 0x00, 0x00, 0x00, 0x00, 0x00, 0x00],
    // '#'
    [0x00, 0x28, 0x28, 0x28, 0x28, 0x7c, 0x7c, 0x28, 0x28, 0x7c, 0x7c, 0x28, 0x28, 0x28, 0x28, 0x00],
    // '$'
    [0x00, 0x10, 0x10, 0x3c, 0x3c, 0x50, 0x50, 0x38, 0x38, 0x14, 0x14, 0x78, 0x78, 0x10, 0x10, 0x00],
    // '%'
    [0x00, 0x60, 0x60, 0x64, 0x64, 0x08, 0x08, 0x10, 0x10, 0x20, 0x20, 0x4c, 0x4c, 0x0c, 0x0c, 0x00],
    // '&'
    [0x00, 0x30, 0x30, 0x48, 0x48, 0x50, 0x50, 0x20, 0x20, 0x54, 0x54, 0x48, 0x48, 0x34, 0x34, 0x00],
    // '''
    [0x00, 0x30, 0x30, 0x10, 0x10, 0x20, 0x20, 0x00, 0x00, 0x00, 0x00, 0x00, 0x00, 0x00, 0x00, 0x00],
    // '('
    [0x00, 0x08, 0x08, 0x10, 0x10, 0x20, 0x20, 0x20, 0x20, 0x20, 0x20, 0x10, 0x10, 0x08, 0x08, 0x00],
    // ')'
    [0x00, 0x20, 0x20, 0x10, 0x10, 0x08, 0x08, 0x08, 0x08, 0x08, 0x08, 0x10, 0x10, 0x20, 0x20, 0x00],
    // '*'
    [0x00, 0x00, 0x00, 0x10, 0x10, 0x54, 0x54, 0x38, 0x38, 0x54, 0x54, 0x10, 0x10, 0x00, 0x00, 0x00],
    // '+'
    [0x00, 0x00, 0x00, 0x10, 0x10, 0x10, 0x10, 0x7c, 0x7c, 0x10, 0x10, 0x10, 0x10, 0x00, 0x00, 0x00],
    // ','
    [0x00, 0x00, 0x00, 0x00, 0x00, 0x00, 0x00, 0x00, 0x00, 0x30, 0x30, 0x10, 0x10, 0x20, 0x20, 0x00],
    // '-'
    [0x00, 0x00, 0x00, 0x00, 0x00, 0x00, 0x00, 0x7c, 0x7c, 0x00, 0x00, 0x00, 0x00, 0x00, 0x00, 0x00],
    // '.'
    [0x00, 0x00, 0x00, 0x00, 0x00, 0x00, 0x00, 0x00, 0x00, 0x00, 0x00, 0x30, 0x30, 0x30, 0x30, 0x00],
    // '/'
    [0x00, 0x00, 0x00, 0x04, 0x04, 0x08, 0x08, 0x10, 0x10, 0x20, 0x20, 0x40, 0x40, 0x00, 0x00, 0x00],
    // '0'
    [0x00, 0x38, 0x38, 0x44, 0x44, 0x4c, 0x4c, 0x54, 0x54, 0x64, 0x64, 0x44, 0x44, 0x38, 0x38, 0x00],
    // '1'
    [0x00, 0x10, 0x10, 0x30, 0x30, 0x10, 0x10, 0x10, 0x10, 0x10, 0x10, 0x10, 0x10, 0x38, 0x38, 0x00],
    // '2'
    [0x00, 0x38, 0x38, 0x44, 0x44, 0x04, 0x04, 0x08, 0x08, 0x10, 0x10, 0x20, 0x20, 0x7c, 0x7c, 0x00],
    // '3'
    [0x00, 0x7c, 0x7c, 0x08, 0x08, 0x10, 0x10, 0x08, 0x08, 0x04, 0x04, 0x44, 0x44, 0x38, 0x38, 0x00],
    // '4'
    [0x00, 0x08, 0x08, 0x18, 0x18, 0x28, 0x28, 0x48, 0x48, 0x7c, 0x7c, 0x08, 0x08, 0x08, 0x08, 0x00],
    // '5'
    [0x00, 0x7c, 0x7c, 0x40, 0x40, 0x78, 0x78, 0x04, 0x04, 0x04, 0x04, 0x44, 0x44, 0x38, 0x38, 0x00],
    // '6'
    [0x00, 0x18, 0x18, 0x20, 0x20, 0x40, 0x40, 0x78, 0x78, 0x44, 0x44, 0x44, 0x44, 0x38, 0x38, 0x00],
    // '7'
    [0x00, 0x7c, 0x7c, 0x04, 0x04, 0x08, 0x08, 0x10, 0x10, 0x20, 0x20, 0x20, 0x20, 0x20, 0x20, 0x00],
    // '8'
    [0x00, 0x38, 0x38, 0x44, 0x44, 0x44, 0x44, 0x38, 0x38, 0x44, 0x44, 0x44, 0x44, 0x38, 0x38, 0x00],
    // '9'
    [0x00, 0x38, 0x38, 0x44, 0x44, 0x44, 0x44, 0x3c, 0x3c, 0x04, 0x04, 0x08, 0x08, 0x30, 0x30, 0x00],
    // ':'
    [0x00, 0x00, 0x00, 0x30, 0x30, 0x30, 0x30, 0x00, 0x00, 0x30, 0x30, 0x30, 0x30, 0x00, 0x00, 0x00],
    // ';'
    [0x00, 0x00, 0x00, 0x30, 0x30, 0x30, 0x30, 0x00, 0x00, 0x30, 0x30, 0x10, 0x10, 0x20, 0x20, 0x00],
    // '<'
    [0x00, 0x08, 0x08, 0x10, 0x10, 0x20, 0x20, 0x40, 0x40, 0x20, 0x20, 0x10, 0x10, 0x08, 0x08, 0x00],
    // '='
    [0x00, 0x00, 0x00, 0x00, 0x00, 0x7c, 0x7c, 0x00, 0x00, 0x7c, 0x7c, 0x00, 0x00, 0x00, 0x00, 0x00],
    // '>'
    [0x00, 0x20, 0x20, 0x10, 0x10, 0x08, 0x08, 0x04, 0x04, 0x08, 0x08, 0x10, 0x10, 0x20, 0x20, 0x00],
    // '?'
    [0x00, 0x38, 0x38, 0x44, 0x44, 0x04, 0x04, 0x08, 0x08, 0x10, 0x10, 0x00, 0x00, 0x10, 0x10, 0x00],
    // '@'
    [0x00, 0x38, 0x38, 0x44, 0x44, 0x04, 0x04, 0x34, 0x34, 0x54, 0x54, 0x54, 0x54, 0x38, 0x38, 0x00],
    // 'A'
    [0x00, 0x38, 0x38, 0x44, 0x44, 0x44, 0x44, 0x44, 0x44, 0x7c, 0x7c, 0x44, 0x44, 0x44, 0x44, 0x00],
    // 'B'
    [0x00, 0x78, 0x78, 0x44, 0x44, 0x44, 0x44, 0x78, 0x78, 0x44, 0x44, 0x44, 0x44, 0x78, 0x78, 0x00],
    // 'C'
    [0x00, 0x38, 0x38, 0x44, 0x44, 0x40, 0x40, 0x40, 0x40, 0x40, 0x40, 0x44, 0x44, 0x38, 0x38, 0x00],
    // 'D'
    [0x00, 0x70, 0x70, 0x48, 0x48, 0x44, 0x44, 0x44, 0x44, 0x44, 0x44, 0x48, 0x48, 0x70, 0x70, 0x00],
    // 'E'
    [0x00, 0x7c, 0x7c, 0x40, 0x40, 0x40, 0x40, 0x78, 0x78, 0x40, 0x40, 0x40, 0x40, 0x7c, 0x7c, 0x00],
    // 'F'
    [0x00, 0x7c, 0x7c, 0x40, 0x40, 0x40, 0x40, 0x78, 0x78, 0x40, 0x40, 0x40, 0x40, 0x40, 0x40, 0x00],
    // 'G'
    [0x00, 0x38, 0x38, 0x44, 0x44, 0x40, 0x40, 0x5c, 0x5c, 0x44, 0x44, 0x44, 0x44, 0x3c, 0x3c, 0x00],
    // 'H'
    [0x00, 0x44, 0x44, 0x44, 0x44, 0x44, 0x44, 0x7c, 0x7c, 0x44, 0x44, 0x44, 0x44, 0x44, 0x44, 0x00],
    // 'I'
    [0x00, 0x38, 0x38, 0x10, 0x10, 0x10, 0x10, 0x10, 0x10, 0x10, 0x10, 0x10, 0x10, 0x38, 0x38, 0x00],
    // 'J'
    [0x00, 0x1c, 0x1c, 0x08, 0x08, 0x08, 0x08, 0x08, 0x08, 0x08, 0x08, 0x48, 0x48, 0x30, 0x30, 0x00],
    // 'K'
    [0x00, 0x44, 0x44, 0x48, 0x48, 0x50, 0x50, 0x60, 0x60, 0x50, 0x50, 0x48, 0x48, 0x44, 0x44, 0x00],
    // 'L'
    [0x00, 0x40, 0x40, 0x40, 0x40, 0x40, 0x40, 0x40, 0x40, 0x40, 0x40, 0x40, 0x40, 0x7c, 0x7c, 0x00],
    // 'M'
    [0x00, 0x44, 0x44, 0x6c, 0x6c, 0x54, 0x54, 0x54, 0x54, 0x44, 0x44, 0x44, 0x44, 0x44, 0x44, 0x00],
    // 'N'
    [0x00, 0x44, 0x44, 0x44, 0x44, 0x64, 0x64, 0x54, 0x54, 0x4c, 0x4c, 0x44, 0x44, 0x44, 0x44, 0x00],
    // 'O'
    [0x00, 0x38, 0x38, 0x44, 0x44, 0x44, 0x44, 0x44, 0x44, 0x44, 0x44, 0x44, 0x44, 0x38, 0x38, 0x00],
    // 'P'
    [0x00, 0x78, 0x78, 0x44, 0x44, 0x44, 0x44, 0x78, 0x78, 0x40, 0x40, 0x40, 0x40, 0x40, 0x40, 0x00],
    // 'Q'
    [0x00, 0x38, 0x38, 0x44, 0x44, 0x44, 0x44, 0x44, 0x44, 0x54, 0x54, 0x48, 0x48, 0x34, 0x34, 0x00],
    // 'R'
    [0x00, 0x78, 0x78, 0x44, 0x44, 0x44, 0x44, 0x78, 0x78, 0x50, 0x50, 0x48, 0x48, 0x44, 0x44, 0x00],
    // 'S'
    [0x00, 0x3c, 0x3c, 0x40, 0x40, 0x40, 0x40, 0x38, 0x38, 0x04, 0x04, 0x04, 0x04, 0x78, 0x78, 0x00],
    // 'T'
    [0x00, 0x7c, 0x7c, 0x10, 0x10, 0x10, 0x10, 0x10, 0x10, 0x10, 0x10, 0x10, 0x10, 0x10, 0x10, 0x00],
    // 'U'
    [0x00, 0x44, 0x44, 0x44, 0x44, 0x44, 0x44, 0x44, 0x44, 0x44, 0x44, 0x44, 0x44, 0x38, 0x38, 0x00],
    // 'V'
    [0x00, 0x44, 0x44, 0x44, 0x44, 0x44, 0x44, 0x44, 0x44, 0x44, 0x44, 0x28, 0x28, 0x10, 0x10, 0x00],
    // 'W'
    [0x00, 0x44, 0x44, 0x44, 0x44, 0x44, 0x44, 0x54, 0x54, 0x54, 0x54, 0x54, 0x54, 0x28, 0x28, 0x00],
    // 'X'
    [0x00, 0x44, 0x44, 0x44, 0x44, 0x28, 0x28, 0x10, 0x10, 0x28, 0x28, 0x44, 0x44, 0x44, 0x44, 0x00],
    // 'Y'
    [0x00, 0x44, 0x44, 0x44, 0x44, 0x44, 0x44, 0x28, 0x28, 0x10, 0x10, 0x10, 0x10, 0x10, 0x10, 0x00],
    // 'Z'
    [0x00, 0x7c, 0x7c, 0x04, 0x04, 0x08, 0x08, 0x10, 0x10, 0x20, 0x20, 0x40, 0x40, 0x7c, 0x7c, 0x00],
    // '['
    [0x00, 0x38, 0x38, 0x20, 0x20, 0x20, 0x20, 0x20, 0x20, 0x20, 0x20, 0x20, 0x20, 0x38, 0x38, 0x00],
    // backslash
    [0x00, 0x00, 0x00, 0x40, 0x40, 0x20, 0x20, 0x10, 0x10, 0x08, 0x08, 0x04, 0x04, 0x00, 0x00, 0x00],
    // ']'
    [0x00, 0x38, 0x38, 0x08, 0x08, 0x08, 0x08, 0x08, 0x08, 0x08, 0x08, 0x08, 0x08, 0x38, 0x38, 0x00],
    // '^'
    [0x00, 0x10, 0x10, 0x28, 0x28, 0x44, 0x44, 0x00, 0x00, 0x00, 0x00, 0x00, 0x00, 0x00, 0x00, 0x00],
    // '_'
    [0x00, 0x00, 0x00, 0x00, 0x00, 0x00, 0x00, 0x00, 0x00, 0x00, 0x00, 0x00, 0x00, 0x7c, 0x7c, 0x00],
    // backtick
    [0x00, 0x20, 0x20, 0x10, 0x10, 0x08, 0x08, 0x00, 0x00, 0x00, 0x00, 0x00, 0x00, 0x00, 0x00, 0x00],
    // 'a'
    [0x00, 0x00, 0x00, 0x00, 0x00, 0x38, 0x38, 0x04, 0x04, 0x3c, 0x3c, 0x44, 0x44, 0x3c, 0x3c, 0x00],
    // 'b'
    [0x00, 0x40, 0x40, 0x40, 0x40, 0x58, 0x58, 0x64, 0x64, 0x44, 0x44, 0x44, 0x44, 0x78, 0x78, 0x00],
    // 'c'
    [0x00, 0x00, 0x00, 0x00, 0x00, 0x38, 0x38, 0x40, 0x40, 0x40, 0x40, 0x44, 0x44, 0x38, 0x38, 0x00],
    // 'd'
    [0x00, 0x04, 0x04, 0x04, 0x04, 0x34, 0x34, 0x4c, 0x4c, 0x44, 0x44, 0x44, 0x44, 0x3c, 0x3c, 0x00],
    // 'e'
    [0x00, 0x00, 0x00, 0x00, 0x00, 0x38, 0x38, 0x44, 0x44, 0x7c, 0x7c, 0x40, 0x40, 0x38, 0x38, 0x00],
    // 'f'
    [0x00, 0x18, 0x18, 0x24, 0x24, 0x20, 0x20, 0x70, 0x70, 0x20, 0x20, 0x20, 0x20, 0x20, 0x20, 0x00],
    // 'g'
    [0x00, 0x00, 0x00, 0x3c, 0x3c, 0x44, 0x44, 0x44, 0x44, 0x3c, 0x3c, 0x04, 0x04, 0x38, 0x38, 0x00],
    // 'h'
    [0x00, 0x40, 0x40, 0x40, 0x40, 0x58, 0x58, 0x64, 0x64, 0x44, 0x44, 0x44, 0x44, 0x44, 0x44, 0x00],
    // 'i'
    [0x00, 0x10, 0x10, 0x00, 0x00, 0x30, 0x30, 0x10, 0x10, 0x10, 0x10, 0x10, 0x10, 0x38, 0x38, 0x00],
    // 'j'
    [0x00, 0x08, 0x08, 0x00, 0x00, 0x18, 0x18, 0x08, 0x08, 0x08, 0x08, 0x48, 0x48, 0x30, 0x30, 0x00],
    // 'k'
    [0x00, 0x40, 0x40, 0x40, 0x40, 0x48, 0x48, 0x50, 0x50, 0x60, 0x60, 0x50, 0x50, 0x48, 0x48, 0x00],
    // 'l'
    [0x00, 0x30, 0x30, 0x10, 0x10, 0x10, 0x10, 0x10, 0x10, 0x10, 0x10, 0x10, 0x10, 0x38, 0x38, 0x00],
    // 'm'
    [0x00, 0x00, 0x00, 0x00, 0x00, 0x68, 0x68, 0x54, 0x54, 0x54, 0x54, 0x44, 0x44, 0x44, 0x44, 0x00],
    // 'n'
    [0x00, 0x00, 0x00, 0x00, 0x00, 0x58, 0x58, 0x64, 0x64, 0x44, 0x44, 0x44, 0x44, 0x44, 0x44, 0x00],
    // 'o'
    [0x00, 0x00, 0x00, 0x00, 0x00, 0x38, 0x38, 0x44, 0x44, 0x44, 0x44, 0x44, 0x44, 0x38, 0x38, 0x00],
    // 'p'
    [0x00, 0x00, 0x00, 0x00, 0x00, 0x78, 0x78, 0x44, 0x44, 0x78, 0x78, 0x40, 0x40, 0x40, 0x40, 0x00],
    // 'q'
    [0x00, 0x00, 0x00, 0x00, 0x00, 0x34, 0x34, 0x4c, 0x4c, 0x3c, 0x3c, 0x04, 0x04, 0x04, 0x04, 0x00],
    // 'r'
    [0x00, 0x00, 0x00, 0x00, 0x00, 0x58, 0x58, 0x64, 0x64, 0x40, 0x40, 0x40, 0x40, 0x40, 0x40, 0x00],
    // 's'
    [0x00, 0x00, 0x00, 0x00, 0x00, 0x38, 0x38, 0x40, 0x40, 0x38, 0x38, 0x04, 0x04, 0x78, 0x78, 0x00],
    // 't'
    [0x00, 0x20, 0x20, 0x20, 0x20, 0x70, 0x70, 0x20, 0x20, 0x20, 0x20, 0x24, 0x24, 0x18, 0x18, 0x00],
    // 'u'
    [0x00, 0x00, 0x00, 0x00, 0x00, 0x44, 0x44, 0x44, 0x44, 0x44, 0x44, 0x4c, 0x4c, 0x34, 0x34, 0x00],
    // 'v'
    [0x00, 0x00, 0x00, 0x00, 0x00, 0x44, 0x44, 0x44, 0x44, 0x44, 0x44, 0x28, 0x28, 0x10, 0x10, 0x00],
    // 'w'
    [0x00, 0x00, 0x00, 0x00, 0x00, 0x44, 0x44, 0x44, 0x44, 0x54, 0x54, 0x54, 0x54, 0x28, 0x28, 0x00],
    // 'x'
    [0x00, 0x00, 0x00, 0x00, 0x00, 0x44, 0x44, 0x28, 0x28, 0x10, 0x10, 0x28, 0x28, 0x44, 0x44, 0x00],
    // 'y'
    [0x00, 0x00, 0x00, 0x00, 0x00, 0x44, 0x44, 0x44, 0x44, 0x3c, 0x3c, 0x04, 0x04, 0x38, 0x38, 0x00],
    // 'z'
    [0x00, 0x00, 0x00, 0x00, 0x00, 0x7c, 0x7c, 0x08, 0x08, 0x10, 0x10, 0x20, 0x20, 0x7c, 0x7c, 0x00],
    // '{'
    [0x00, 0x08, 0x08, 0x10, 0x10, 0x10, 0x10, 0x20, 0x20, 0x10, 0x10, 0x10, 0x10, 0x08, 0x08, 0x00],
    // '|'
    [0x00, 0x10, 0x10, 0x10, 0x10, 0x10, 0x10, 0x10, 0x10, 0x10, 0x10, 0x10, 0x10, 0x10, 0x10, 0x00],
    // '}'
    [0x00, 0x20, 0x20, 0x10, 0x10, 0x10, 0x10, 0x08, 0x08, 0x10, 0x10, 0x10, 0x10, 0x20, 0x20, 0x00],
    // '~'
    [0x00, 0x00, 0x00, 0x00, 0x00, 0x00, 0x00, 0x34, 0x34, 0x48, 0x48, 0x00, 0x00, 0x00, 0x00, 0x00],
    // placeholder box
    [0x00, 0x7c, 0x44, 0x44, 0x44, 0x44, 0x44, 0x44, 0x44, 0x44, 0x44, 0x44, 0x44, 0x44, 0x7c, 0x00],
];

/// One character's bitmap.
#[derive(Debug, Clone, Copy, PartialEq, Eq)]
pub struct Glyph {
    /// The rows, top row first; in each row the most significant bit is the
    /// leftmost pixel.
    pub rows: [u8; 16],
}

impl Glyph {
    /// Whether the pixel in column `x` of row `y` belongs to the character's
    /// shape. Outside the cell no pixel does.
    pub open spec fn bit(self, x: int, y: int) -> bool {
        &&& 0 <= x < CHAR_WIDTH
        &&& 0 <= y < CHAR_HEIGHT
        &&& (self.rows[y] >> ((7 - x) as u8)) & 1 == 1
    }

    /// Whether the pixel in column `x` of row `y` belongs to the character's
    /// shape.
    pub fn is_set(&self, x: usize, y: usize) -> (set: bool)
        ensures
            set == self.bit(x as int, y as int),
        no_unwind
    {
        if x < CHAR_WIDTH && y < CHAR_HEIGHT {
            let shift: u8 = (7 - x) as u8;
            (self.rows[y] >> shift) & 1 == 1
        } else {
            false
        }
    }
}

/// Where in the font table the glyph for `byte` stands.
pub open spec fn glyph_index(byte: u8) -> int {
    if ASCII_PRINTABLE_START <= byte < ASCII_PRINTABLE_END {
        byte - ASCII_PRINTABLE_START
    } else {
        FALLBACK_GLYPH as int
    }
}

/// The glyph drawn for `byte`.
pub open spec fn glyph_of(byte: u8) -> Glyph {
    Glyph { rows: FONT[glyph_index(byte)] }
}

/// Looks up the glyph drawn for `byte`. Every byte has one, and always the
/// same one.
pub fn glyph_for(byte: u8) -> (glyph: Glyph)
    ensures
        glyph == glyph_of(byte),
{
    let code: usize = byte as usize;
    let index: usize = if ASCII_PRINTABLE_START <= code && code < ASCII_PRINTABLE_END {
        code - ASCII_PRINTABLE_START
    } else {
        FALLBACK_GLYPH
    };
    assert(FONT@.len() == FONT_CHAR_COUNT);
    Glyph { rows: FONT[index] }
}

} // verus!
