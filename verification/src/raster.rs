//! What drawing does to framebuffer memory, byte by byte.
//!
//! Each operation is stated by saying, for every byte of the memory region,
//! what it holds afterwards: a byte of some pixel's new colour, or what it
//! held before. Padding and memory behind the last scanline are never
//! touched.

use vstd::prelude::*;
use crate::constants::vga::{CHAR_HEIGHT, CHAR_WIDTH};
use crate::font::Glyph;
use crate::geometry::{lemma_byte_location, lemma_pixel_location, Geometry};

verus! {

/// The bytes of pixel `(x, y)`.
pub open spec fn pixel_at(memory: Seq<u8>, g: Geometry, x: int, y: int) -> Seq<u8> {
    memory.subrange(g.offset(x, y), g.offset(x, y) + g.bpp())
}

/// `memory` after pixel `(x, y)` has been set to `bytes`. Setting a pixel
/// that is not visible changes nothing.
pub open spec fn with_pixel(memory: Seq<u8>, g: Geometry, x: int, y: int, bytes: Seq<u8>) -> Seq<
    u8,
> {
    Seq::new(
        memory.len(),
        |i: int|
            if g.covers(i) && g.pixel_x(i) == x && g.pixel_y(i) == y {
                bytes[g.channel(i)]
            } else {
                memory[i]
            },
    )
}

/// Whether a pixel comes before `(col, row)` in reading order.
pub open spec fn before(x: int, y: int, col: int, row: int) -> bool {
    y < row || (y == row && x < col)
}

/// `memory` after every visible pixel that comes before `(col, row)` in
/// reading order has been set to `bytes`.
pub open spec fn filled_upto(memory: Seq<u8>, g: Geometry, bytes: Seq<u8>, col: int, row: int) -> Seq<
    u8,
> {
    Seq::new(
        memory.len(),
        |i: int|
            if g.covers(i) && before(g.pixel_x(i), g.pixel_y(i), col, row) {
                bytes[g.channel(i)]
            } else {
                memory[i]
            },
    )
}

/// `memory` after every visible pixel has been set to `bytes`.
pub open spec fn filled(memory: Seq<u8>, g: Geometry, bytes: Seq<u8>) -> Seq<u8> {
    Seq::new(
        memory.len(),
        |i: int|
            if g.covers(i) {
                bytes[g.channel(i)]
            } else {
                memory[i]
            },
    )
}

/// Whether pixel `(x, y)` lies in the character cell whose top left pixel is
/// `(left, top)`.
pub open spec fn in_cell(left: int, top: int, x: int, y: int) -> bool {
    left <= x < left + CHAR_WIDTH && top <= y < top + CHAR_HEIGHT
}

/// The bytes a glyph puts at pixel `(x, y)` of its cell: `ink` where the
/// glyph's bit is set, `paper` where it is clear.
pub open spec fn glyph_bytes(glyph: Glyph, x: int, y: int, ink: Seq<u8>, paper: Seq<u8>) -> Seq<
    u8,
> {
    if glyph.bit(x, y) {
        ink
    } else {
        paper
    }
}

/// `memory` after the pixels of a glyph's cell that come before `(col, row)`
/// of the cell in reading order have been drawn with its top left corner at
/// `(left, top)`. Pixels of the cell that are not visible are skipped.
pub open spec fn with_glyph_upto(
    memory: Seq<u8>,
    g: Geometry,
    left: int,
    top: int,
    glyph: Glyph,
    ink: Seq<u8>,
    paper: Seq<u8>,
    col: int,
    row: int,
) -> Seq<u8> {
    Seq::new(
        memory.len(),
        |i: int|
            if g.covers(i) && in_cell(left, top, g.pixel_x(i), g.pixel_y(i)) && before(
                g.pixel_x(i) - left,
                g.pixel_y(i) - top,
                col,
                row,
            ) {
                glyph_bytes(glyph, g.pixel_x(i) - left, g.pixel_y(i) - top, ink, paper)[g.channel(
                    i,
                )]
            } else {
                memory[i]
            },
    )
}

/// `memory` after a glyph has been drawn with the top left corner of its
/// cell at `(left, top)`: every visible pixel of the cell holds `ink` or
/// `paper`, and nothing else has changed.
pub open spec fn with_glyph(
    memory: Seq<u8>,
    g: Geometry,
    left: int,
    top: int,
    glyph: Glyph,
    ink: Seq<u8>,
    paper: Seq<u8>,
) -> Seq<u8> {
    Seq::new(
        memory.len(),
        |i: int|
            if g.covers(i) && in_cell(left, top, g.pixel_x(i), g.pixel_y(i)) {
                glyph_bytes(glyph, g.pixel_x(i) - left, g.pixel_y(i) - top, ink, paper)[g.channel(
                    i,
                )]
            } else {
                memory[i]
            },
    )
}

/// A fill that has not begun has changed nothing, and one that has passed
/// the last scanline has set every visible pixel.
pub proof fn lemma_fill_ends(memory: Seq<u8>, g: Geometry, bytes: Seq<u8>)
    requires
        g.valid(),
    ensures
        filled_upto(memory, g, bytes, 0, 0) == memory,
        filled_upto(memory, g, bytes, 0, g.height as int) == filled(memory, g, bytes),
{
    let unbegun = filled_upto(memory, g, bytes, 0, 0);
    let done = filled_upto(memory, g, bytes, 0, g.height as int);
    let whole = filled(memory, g, bytes);
    assert forall|i: int| 0 <= i < memory.len() implies #[trigger] unbegun[i] == memory[i] by {
        if g.covers(i) {
            lemma_byte_location(g, i);
        }
    }
    assert(unbegun =~= memory);
    assert forall|i: int| 0 <= i < memory.len() implies #[trigger] done[i] == whole[i] by {
        if g.covers(i) {
            lemma_byte_location(g, i);
        }
    }
    assert(done =~= whole);
}

/// Setting the next pixel in reading order advances a fill by one pixel,
/// and the end of one scanline is the start of the next.
pub proof fn lemma_fill_step(memory: Seq<u8>, g: Geometry, bytes: Seq<u8>, col: int, row: int)
    requires
        g.valid(),
        g.contains(col, row),
    ensures
        with_pixel(filled_upto(memory, g, bytes, col, row), g, col, row, bytes) == filled_upto(
            memory,
            g,
            bytes,
            col + 1,
            row,
        ),
        filled_upto(memory, g, bytes, g.width as int, row) == filled_upto(
            memory,
            g,
            bytes,
            0,
            row + 1,
        ),
{
    let sofar = filled_upto(memory, g, bytes, col, row);
    let stepped = with_pixel(sofar, g, col, row, bytes);
    let next = filled_upto(memory, g, bytes, col + 1, row);
    assert forall|i: int| 0 <= i < memory.len() implies #[trigger] stepped[i] == next[i] by {
        if g.covers(i) {
            lemma_byte_location(g, i);
        }
    }
    assert(stepped =~= next);
    let row_done = filled_upto(memory, g, bytes, g.width as int, row);
    let row_next = filled_upto(memory, g, bytes, 0, row + 1);
    assert forall|i: int| 0 <= i < memory.len() implies #[trigger] row_done[i] == row_next[i] by {
        if g.covers(i) {
            lemma_byte_location(g, i);
        }
    }
    assert(row_done =~= row_next);
}

/// A glyph that has not begun has changed nothing, and one whose last row
/// is done is drawn.
pub proof fn lemma_glyph_ends(
    memory: Seq<u8>,
    g: Geometry,
    left: int,
    top: int,
    glyph: Glyph,
    ink: Seq<u8>,
    paper: Seq<u8>,
)
    ensures
        with_glyph_upto(memory, g, left, top, glyph, ink, paper, 0, 0) == memory,
        with_glyph_upto(memory, g, left, top, glyph, ink, paper, 0, CHAR_HEIGHT as int)
            == with_glyph(memory, g, left, top, glyph, ink, paper),
{
    let unbegun = with_glyph_upto(memory, g, left, top, glyph, ink, paper, 0, 0);
    let done = with_glyph_upto(memory, g, left, top, glyph, ink, paper, 0, CHAR_HEIGHT as int);
    let whole = with_glyph(memory, g, left, top, glyph, ink, paper);
    assert forall|i: int| 0 <= i < memory.len() implies #[trigger] unbegun[i] == memory[i] by {}
    assert(unbegun =~= memory);
    assert forall|i: int| 0 <= i < memory.len() implies #[trigger] done[i] == whole[i] by {}
    assert(done =~= whole);
}

/// Drawing the next pixel of a glyph's cell in reading order advances the
/// glyph by one pixel: the pixel is set if it is visible and skipped if it
/// is not. The end of one row of the cell is the start of the next.
pub proof fn lemma_glyph_step(
    memory: Seq<u8>,
    g: Geometry,
    left: int,
    top: int,
    glyph: Glyph,
    ink: Seq<u8>,
    paper: Seq<u8>,
    col: int,
    row: int,
)
    requires
        g.valid(),
        0 <= col < CHAR_WIDTH,
        0 <= row < CHAR_HEIGHT,
    ensures
        g.contains(left + col, top + row) ==> with_pixel(
            with_glyph_upto(memory, g, left, top, glyph, ink, paper, col, row),
            g,
            left + col,
            top + row,
            glyph_bytes(glyph, col, row, ink, paper),
        ) == with_glyph_upto(memory, g, left, top, glyph, ink, paper, col + 1, row),
        !g.contains(left + col, top + row) ==> with_glyph_upto(
            memory,
            g,
            left,
            top,
            glyph,
            ink,
            paper,
            col,
            row,
        ) == with_glyph_upto(memory, g, left, top, glyph, ink, paper, col + 1, row),
        with_glyph_upto(memory, g, left, top, glyph, ink, paper, CHAR_WIDTH as int, row)
            == with_glyph_upto(memory, g, left, top, glyph, ink, paper, 0, row + 1),
{
    let sofar = with_glyph_upto(memory, g, left, top, glyph, ink, paper, col, row);
    let next = with_glyph_upto(memory, g, left, top, glyph, ink, paper, col + 1, row);
    if g.contains(left + col, top + row) {
        let stepped = with_pixel(
            sofar,
            g,
            left + col,
            top + row,
            glyph_bytes(glyph, col, row, ink, paper),
        );
        assert forall|i: int| 0 <= i < memory.len() implies #[trigger] stepped[i] == next[i] by {}
        assert(stepped =~= next);
    } else {
        assert forall|i: int| 0 <= i < memory.len() implies #[trigger] sofar[i] == next[i] by {
            if g.covers(i) {
                lemma_byte_location(g, i);
            }
        }
        assert(sofar =~= next);
    }
    let row_done = with_glyph_upto(memory, g, left, top, glyph, ink, paper, CHAR_WIDTH as int, row);
    let row_next = with_glyph_upto(memory, g, left, top, glyph, ink, paper, 0, row + 1);
    assert forall|i: int| 0 <= i < memory.len() implies #[trigger] row_done[i] == row_next[i] by {}
    assert(row_done =~= row_next);
}

/// The `k`-th byte of a visible pixel is the byte of memory at the pixel's
/// offset plus `k`.
proof fn lemma_pixel_at_index(memory: Seq<u8>, g: Geometry, x: int, y: int, k: int)
    requires
        g.valid(),
        g.span() <= memory.len(),
        g.contains(x, y),
        0 <= k < g.bpp(),
    ensures
        pixel_at(memory, g, x, y).len() == g.bpp(),
        pixel_at(memory, g, x, y)[k] == memory[g.offset(x, y) + k],
        0 <= g.offset(x, y) + k < memory.len(),
        g.covers(g.offset(x, y) + k),
        g.pixel_x(g.offset(x, y) + k) == x,
        g.pixel_y(g.offset(x, y) + k) == y,
        g.channel(g.offset(x, y) + k) == k,
{
    lemma_pixel_location(g, x, y, k);
    lemma_pixel_location(g, x, y, 0);
}

/// A pixel that has just been set reads back as the bytes it was set to, and
/// every other visible pixel reads as before. Setting a pixel that is not
/// visible changes no byte.
pub proof fn lemma_set_pixel_reads_back(memory: Seq<u8>, g: Geometry, x: int, y: int, bytes: Seq<u8>)
    requires
        g.valid(),
        g.span() <= memory.len(),
        bytes.len() == g.bpp(),
    ensures
        g.contains(x, y) ==> pixel_at(with_pixel(memory, g, x, y, bytes), g, x, y) == bytes,
        !g.contains(x, y) ==> with_pixel(memory, g, x, y, bytes) == memory,
        forall|x2: int, y2: int|
            g.contains(x2, y2) && (x2 != x || y2 != y) ==> #[trigger] pixel_at(
                with_pixel(memory, g, x, y, bytes),
                g,
                x2,
                y2,
            ) == pixel_at(memory, g, x2, y2),
{
    let after = with_pixel(memory, g, x, y, bytes);
    if g.contains(x, y) {
        let read = pixel_at(after, g, x, y);
        assert forall|k: int| 0 <= k < g.bpp() implies #[trigger] read[k] == bytes[k] by {
            lemma_pixel_at_index(after, g, x, y, k);
        }
        lemma_pixel_at_index(after, g, x, y, 0);
        assert(read =~= bytes);
    } else {
        assert forall|i: int| 0 <= i < memory.len() implies #[trigger] after[i] == memory[i] by {
            if g.covers(i) {
                lemma_byte_location(g, i);
            }
        }
        assert(after =~= memory);
    }
    assert forall|x2: int, y2: int| g.contains(x2, y2) && (x2 != x || y2 != y) implies #[trigger] pixel_at(
        after,
        g,
        x2,
        y2,
    ) == pixel_at(memory, g, x2, y2) by {
        let read = pixel_at(after, g, x2, y2);
        let was = pixel_at(memory, g, x2, y2);
        assert forall|k: int| 0 <= k < g.bpp() implies #[trigger] read[k] == was[k] by {
            lemma_pixel_at_index(after, g, x2, y2, k);
            lemma_pixel_at_index(memory, g, x2, y2, k);
        }
        lemma_pixel_at_index(after, g, x2, y2, 0);
        lemma_pixel_at_index(memory, g, x2, y2, 0);
        assert(read =~= was);
    }
}

/// After a fill every visible pixel reads as the fill's bytes.
pub proof fn lemma_filled_reads_back(memory: Seq<u8>, g: Geometry, bytes: Seq<u8>, x: int, y: int)
    requires
        g.valid(),
        g.span() <= memory.len(),
        bytes.len() == g.bpp(),
        g.contains(x, y),
    ensures
        pixel_at(filled(memory, g, bytes), g, x, y) == bytes,
{
    let after = filled(memory, g, bytes);
    let read = pixel_at(after, g, x, y);
    assert forall|k: int| 0 <= k < g.bpp() implies #[trigger] read[k] == bytes[k] by {
        lemma_pixel_at_index(after, g, x, y, k);
    }
    lemma_pixel_at_index(after, g, x, y, 0);
    assert(read =~= bytes);
}

/// After a glyph has been drawn, a visible pixel of its cell reads as ink
/// where the glyph's bit is set and as paper where it is clear; a visible
/// pixel outside the cell reads as before.
pub proof fn lemma_glyph_reads_back(
    memory: Seq<u8>,
    g: Geometry,
    left: int,
    top: int,
    glyph: Glyph,
    ink: Seq<u8>,
    paper: Seq<u8>,
    x: int,
    y: int,
)
    requires
        g.valid(),
        g.span() <= memory.len(),
        ink.len() == g.bpp(),
        paper.len() == g.bpp(),
        g.contains(x, y),
    ensures
        in_cell(left, top, x, y) ==> pixel_at(
            with_glyph(memory, g, left, top, glyph, ink, paper),
            g,
            x,
            y,
        ) == glyph_bytes(glyph, x - left, y - top, ink, paper),
        !in_cell(left, top, x, y) ==> pixel_at(
            with_glyph(memory, g, left, top, glyph, ink, paper),
            g,
            x,
            y,
        ) == pixel_at(memory, g, x, y),
{
    let after = with_glyph(memory, g, left, top, glyph, ink, paper);
    let read = pixel_at(after, g, x, y);
    let expected = if in_cell(left, top, x, y) {
        glyph_bytes(glyph, x - left, y - top, ink, paper)
    } else {
        pixel_at(memory, g, x, y)
    };
    assert forall|k: int| 0 <= k < g.bpp() implies #[trigger] read[k] == expected[k] by {
        lemma_pixel_at_index(after, g, x, y, k);
        lemma_pixel_at_index(memory, g, x, y, k);
    }
    lemma_pixel_at_index(after, g, x, y, 0);
    lemma_pixel_at_index(memory, g, x, y, 0);
    assert(read =~= expected);
}

} // verus!
