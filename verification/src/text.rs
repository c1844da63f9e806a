//! The text console as mathematics: what a stream of bytes does to the
//! screen and to the cursor.
//!
//! The screen is a grid of character cells, `CHAR_WIDTH` by `CHAR_HEIGHT`
//! pixels each; pixels that do not fill a cell are margin. The console reads
//! its input byte by byte:
//!
//! * a line feed moves the cursor to the start of the next row;
//! * a carriage return moves it to the start of its own row;
//! * any other byte is drawn at the cursor, which then moves one cell to the
//!   right, and to the start of the next row when it leaves the last column.
//!
//! When the cursor leaves the last row the console scrolls. The scroll is
//! a full clear: every visible pixel is set to the paper colour and the
//! cursor returns to the top row.

use vstd::prelude::*;
use crate::constants::vga::{CHAR_HEIGHT, CHAR_WIDTH};
use crate::font::glyph_of;
use crate::geometry::{FramebufferDescriptor, Geometry};
use crate::pixel::{background_color, encoded, foreground_color};
use crate::raster::{filled, with_glyph};

verus! {

/// The byte that ends a line.
pub const LINE_FEED: u8 = 0x0a;

/// The byte that returns the cursor to the first column.
pub const CARRIAGE_RETURN: u8 = 0x0d;

/// Whether the console draws a glyph for `byte`, rather than only moving
/// the cursor.
pub open spec fn is_drawn(byte: u8) -> bool {
    byte != LINE_FEED && byte != CARRIAGE_RETURN
}

/// The bytes of a pixel in the text colour.
pub open spec fn ink(g: Geometry) -> Seq<u8> {
    encoded(foreground_color(), g.format)
}

/// The bytes of a pixel in the background colour.
pub open spec fn paper(g: Geometry) -> Seq<u8> {
    encoded(background_color(), g.format)
}

/// A console at one moment: the framebuffer's bytes, its layout, and the
/// cell the next glyph goes to.
pub struct TextState {
    /// The bytes of the framebuffer, lowest address first.
    pub memory: Seq<u8>,
    /// The layout of the framebuffer.
    pub geometry: Geometry,
    /// Row of the cell the next glyph goes to.
    pub row: int,
    /// Column of the cell the next glyph goes to.
    pub col: int,
}

impl TextState {
    /// Character cells per row.
    pub open spec fn cols(self) -> int {
        self.geometry.cols()
    }

    /// Rows of text.
    pub open spec fn rows(self) -> int {
        self.geometry.rows()
    }

    /// The memory holds the layout, the layout has room for at least one
    /// cell, and the cursor is on a cell.
    pub open spec fn valid(self) -> bool {
        &&& self.geometry.valid()
        &&& self.geometry.span() <= self.memory.len()
        &&& 0 <= self.row < self.rows()
        &&& 0 <= self.col < self.cols()
    }

    /// A console that has just been bound to `memory`: an empty screen with
    /// the cursor in the top left cell.
    pub open spec fn fresh(memory: Seq<u8>, geometry: Geometry) -> TextState {
        TextState { memory: filled(memory, geometry, paper(geometry)), geometry, row: 0, col: 0 }
    }

    /// The console after `byte` has been drawn and the cursor moved, before
    /// the scroll rule is applied: the cursor may stand one row below the
    /// last.
    pub open spec fn advanced(self, byte: u8) -> TextState {
        if byte == LINE_FEED {
            TextState { row: self.row + 1, col: 0, ..self }
        } else if byte == CARRIAGE_RETURN {
            TextState { col: 0, ..self }
        } else {
            let drawn = with_glyph(
                self.memory,
                self.geometry,
                self.col * CHAR_WIDTH,
                self.row * CHAR_HEIGHT,
                glyph_of(byte),
                ink(self.geometry),
                paper(self.geometry),
            );
            if self.col + 1 == self.cols() {
                TextState { memory: drawn, row: self.row + 1, col: 0, ..self }
            } else {
                TextState { memory: drawn, col: self.col + 1, ..self }
            }
        }
    }

    /// Whether the cursor has left the last row, so that the console must
    /// scroll.
    pub open spec fn overflows(self) -> bool {
        self.row == self.rows()
    }

    /// The scroll rule: a console whose cursor has left the last row is
    /// cleared and its cursor returns to the top row.
    pub open spec fn settled(self) -> TextState {
        if self.overflows() {
            TextState {
                memory: filled(self.memory, self.geometry, paper(self.geometry)),
                row: 0,
                ..self
            }
        } else {
            self
        }
    }

    /// The console after one byte of input.
    pub open spec fn after_byte(self, byte: u8) -> TextState {
        self.advanced(byte).settled()
    }

    /// The console after the bytes of `text`, first byte first.
    pub open spec fn after_text(self, text: Seq<u8>) -> TextState
        decreases text.len(),
    {
        if text.len() == 0 {
            self
        } else {
            self.after_text(text.drop_last()).after_byte(text.last())
        }
    }

    /// How many times the console scrolls while it reads `text`.
    pub open spec fn scrolls(self, text: Seq<u8>) -> nat
        decreases text.len(),
    {
        if text.len() == 0 {
            0
        } else {
            let earlier = self.scrolls(text.drop_last());
            if self.after_text(text.drop_last()).advanced(text.last()).overflows() {
                earlier + 1
            } else {
                earlier
            }
        }
    }
}

/// Whether a memory region of `len` bytes, laid out as `descriptor` says,
/// can carry a console: the region can be drawn on and has room for at least
/// one character cell.
pub open spec fn hosts_text(descriptor: FramebufferDescriptor, len: int) -> bool {
    &&& descriptor.usable(len)
    &&& descriptor.geometry().cols() > 0
    &&& descriptor.geometry().rows() > 0
}

/// How many bytes of `text` the console draws a glyph for.
pub open spec fn printable_len(text: Seq<u8>) -> nat
    decreases text.len(),
{
    if text.len() == 0 {
        0
    } else if is_drawn(text.last()) {
        printable_len(text.drop_last()) + 1
    } else {
        printable_len(text.drop_last())
    }
}

/// Reading a byte leaves a valid console valid and its layout as it was.
pub proof fn lemma_after_byte_valid(s: TextState, byte: u8)
    requires
        s.valid(),
    ensures
        s.after_byte(byte).valid(),
        s.after_byte(byte).geometry == s.geometry,
        s.after_byte(byte).memory.len() == s.memory.len(),
{
}

/// Reading text leaves a valid console valid and its layout as it was.
pub proof fn lemma_after_text_valid(s: TextState, text: Seq<u8>)
    requires
        s.valid(),
    ensures
        s.after_text(text).valid(),
        s.after_text(text).geometry == s.geometry,
        s.after_text(text).memory.len() == s.memory.len(),
    decreases text.len(),
{
    if text.len() > 0 {
        lemma_after_text_valid(s, text.drop_last());
        lemma_after_byte_valid(s.after_text(text.drop_last()), text.last());
    }
}

/// Reading one more byte is reading the text so far and then that byte.
pub proof fn lemma_after_text_push(s: TextState, text: Seq<u8>, byte: u8)
    ensures
        s.after_text(text.push(byte)) == s.after_text(text).after_byte(byte),
{
    assert(text.push(byte).drop_last() =~= text);
}

/// Reading two texts one after the other is reading them joined: it makes
/// no difference where a writer cuts its output.
pub proof fn lemma_after_text_concat(s: TextState, first: Seq<u8>, second: Seq<u8>)
    ensures
        s.after_text(first + second) == s.after_text(first).after_text(second),
    decreases second.len(),
{
    if second.len() == 0 {
        assert(first + second =~= first);
    } else {
        lemma_after_text_concat(s, first, second.drop_last());
        assert(first + second =~= (first + second.drop_last()).push(second.last()));
        lemma_after_text_push(s, first + second.drop_last(), second.last());
    }
}

} // verus!
