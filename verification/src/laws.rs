//! Laws of the text console: where the cursor ends up, and when the screen
//! scrolls.

use vstd::prelude::*;
use crate::constants::vga::{CHAR_HEIGHT, CHAR_WIDTH};
use crate::font::glyph_of;
use crate::pixel::{background_color, foreground_color, lemma_encoded_len};
use crate::raster::{
    filled, glyph_bytes, lemma_filled_reads_back, lemma_glyph_reads_back, pixel_at,
};
use crate::text::{
    ink, is_drawn, lemma_after_text_valid, paper, printable_len, TextState, CARRIAGE_RETURN,
    LINE_FEED,
};

verus! {

/// Whether the console draws a glyph for every byte of `text`: there is no
/// line feed and no carriage return in it.
pub open spec fn plain(text: Seq<u8>) -> bool {
    forall|i: int| 0 <= i < text.len() ==> is_drawn(#[trigger] text[i])
}

/// Whether `text` has no line feed in it.
pub open spec fn on_one_line(text: Seq<u8>) -> bool {
    forall|i: int| 0 <= i < text.len() ==> #[trigger] text[i] != LINE_FEED
}

/// Whether every carriage return of `text` stands before every byte that is
/// drawn.
pub open spec fn returns_lead(text: Seq<u8>) -> bool {
    forall|i: int, j: int|
        0 <= i < j < text.len() && #[trigger] text[j] == CARRIAGE_RETURN ==> #[trigger] text[i]
            == CARRIAGE_RETURN
}

/// `count` line feeds.
pub open spec fn line_feeds(count: nat) -> Seq<u8> {
    Seq::new(count, |i: int| LINE_FEED)
}

/// A byte that is drawn shows as its glyph in the cell the cursor stood on:
/// pixel `(x, y)` of that cell is ink where the glyph's bit is set and paper
/// where it is clear. This holds unless drawing the byte scrolls the screen,
/// which wipes the glyph with everything else.
pub proof fn lemma_drawn_byte_shows_its_glyph(s: TextState, byte: u8, x: int, y: int)
    requires
        s.valid(),
        is_drawn(byte),
        !s.advanced(byte).overflows(),
        0 <= x < CHAR_WIDTH,
        0 <= y < CHAR_HEIGHT,
    ensures
        s.geometry.contains(s.col * CHAR_WIDTH + x, s.row * CHAR_HEIGHT + y),
        pixel_at(
            s.after_byte(byte).memory,
            s.geometry,
            s.col * CHAR_WIDTH + x,
            s.row * CHAR_HEIGHT + y,
        ) == glyph_bytes(glyph_of(byte), x, y, ink(s.geometry), paper(s.geometry)),
{
    lemma_encoded_len(foreground_color(), s.geometry.format);
    lemma_encoded_len(background_color(), s.geometry.format);
    lemma_glyph_reads_back(
        s.memory,
        s.geometry,
        s.col * CHAR_WIDTH,
        s.row * CHAR_HEIGHT,
        glyph_of(byte),
        ink(s.geometry),
        paper(s.geometry),
        s.col * CHAR_WIDTH + x,
        s.row * CHAR_HEIGHT + y,
    );
}

/// After a scroll every visible pixel is paper.
pub proof fn lemma_scrolled_screen_is_blank(s: TextState, x: int, y: int)
    requires
        s.geometry.valid(),
        s.geometry.span() <= s.memory.len(),
        s.overflows(),
        s.geometry.contains(x, y),
    ensures
        pixel_at(s.settled().memory, s.geometry, x, y) == paper(s.geometry),
        s.settled().row == 0,
        s.settled().col == s.col,
{
    lemma_encoded_len(background_color(), s.geometry.format);
    lemma_filled_reads_back(s.memory, s.geometry, paper(s.geometry), x, y);
}

/// Plain text that fits into what is left of the cursor's row moves the
/// cursor right by its length and leaves it on that row. The screen does
/// not scroll.
pub proof fn lemma_plain_text_advances(s: TextState, text: Seq<u8>)
    requires
        s.valid(),
        plain(text),
        s.col + text.len() < s.cols(),
    ensures
        s.after_text(text).row == s.row,
        s.after_text(text).col == s.col + text.len(),
        s.scrolls(text) == 0,
        printable_len(text) == text.len(),
    decreases text.len(),
{
    if text.len() > 0 {
        let earlier = text.drop_last();
        assert(is_drawn(text[text.len() - 1]));
        lemma_plain_text_advances(s, earlier);
        lemma_after_text_valid(s, earlier);
    }
}

/// A text that draws fewer bytes than a row has cells, written from the
/// first column, leaves the cursor on its row, in the column that equals
/// the number of bytes drawn. This holds of a text without a line feed in
/// which no carriage return follows a drawn byte.
pub proof fn lemma_short_text_stays_on_row(s: TextState, text: Seq<u8>)
    requires
        s.valid(),
        s.col == 0,
        printable_len(text) < s.cols(),
        on_one_line(text),
        returns_lead(text),
    ensures
        s.after_text(text).row == s.row,
        s.after_text(text).col == printable_len(text),
        s.scrolls(text) == 0,
    decreases text.len(),
{
    if text.len() > 0 {
        let earlier = text.drop_last();
        let last = text.last();
        assert(text[text.len() - 1] != LINE_FEED);
        assert forall|i: int, j: int|
            0 <= i < j < earlier.len() && #[trigger] earlier[j] == CARRIAGE_RETURN implies #[trigger] earlier[i]
            == CARRIAGE_RETURN by {
            assert(text[j] == CARRIAGE_RETURN);
            assert(text[i] == CARRIAGE_RETURN);
        }
        lemma_short_text_stays_on_row(s, earlier);
        lemma_after_text_valid(s, earlier);
        if last == CARRIAGE_RETURN {
            lemma_only_returns_draw_nothing(earlier);
            assert forall|i: int| 0 <= i < earlier.len() implies #[trigger] earlier[i]
                == CARRIAGE_RETURN by {
                assert(text[text.len() - 1] == CARRIAGE_RETURN);
                assert(text[i] == CARRIAGE_RETURN);
            }
        }
    }
}

/// A text of carriage returns alone has nothing drawn.
proof fn lemma_only_returns_draw_nothing(text: Seq<u8>)
    requires
        forall|i: int| 0 <= i < text.len() ==> #[trigger] text[i] == CARRIAGE_RETURN,
    ensures
        printable_len(text) == 0,
    decreases text.len(),
{
    if text.len() > 0 {
        assert(text[text.len() - 1] == CARRIAGE_RETURN);
        lemma_only_returns_draw_nothing(text.drop_last());
    }
}

/// Plain text that is exactly one row long, written from the first column
/// of a row that is not the last, leaves the cursor at the start of the
/// next row.
pub proof fn lemma_full_row_wraps(s: TextState, text: Seq<u8>)
    requires
        s.valid(),
        s.col == 0,
        plain(text),
        text.len() == s.cols(),
        s.row + 1 < s.rows(),
    ensures
        s.after_text(text).row == s.row + 1,
        s.after_text(text).col == 0,
        s.scrolls(text) == 0,
{
    let earlier = text.drop_last();
    assert(is_drawn(text[text.len() - 1]));
    lemma_plain_text_advances(s, earlier);
    lemma_after_text_valid(s, earlier);
}

/// Plain text that is exactly one row long, written from the first column
/// of the last row, scrolls the screen once: the cursor returns to the top
/// left cell and every visible pixel is paper.
pub proof fn lemma_full_last_row_scrolls(s: TextState, text: Seq<u8>)
    requires
        s.valid(),
        s.col == 0,
        plain(text),
        text.len() == s.cols(),
        s.row + 1 == s.rows(),
    ensures
        s.after_text(text).row == 0,
        s.after_text(text).col == 0,
        s.scrolls(text) == 1,
        s.after_text(text).memory == filled(
            s.after_text(text.drop_last()).advanced(text.last()).memory,
            s.geometry,
            paper(s.geometry),
        ),
{
    let earlier = text.drop_last();
    assert(is_drawn(text[text.len() - 1]));
    lemma_plain_text_advances(s, earlier);
    lemma_after_text_valid(s, earlier);
}

/// Line feeds that do not take the cursor past the last row move it down
/// by their number and to the first column, and leave the screen alone.
pub proof fn lemma_line_feeds_move_down(s: TextState, count: nat)
    requires
        s.valid(),
        s.row + count < s.rows(),
    ensures
        s.after_text(line_feeds(count)).row == s.row + count,
        count > 0 ==> s.after_text(line_feeds(count)).col == 0,
        s.after_text(line_feeds(count)).memory == s.memory,
        s.scrolls(line_feeds(count)) == 0,
    decreases count,
{
    if count > 0 {
        let earlier = (count - 1) as nat;
        assert(line_feeds(count).drop_last() =~= line_feeds(earlier));
        lemma_line_feeds_move_down(s, earlier);
        lemma_after_text_valid(s, line_feeds(earlier));
    }
}

/// As many line feeds as the screen has rows, written with the cursor on the
/// top row, scroll the screen exactly once: the cursor is back in the top
/// left cell, and every visible pixel is paper.
pub proof fn lemma_line_feeds_scroll_once(s: TextState)
    requires
        s.valid(),
        s.row == 0,
    ensures
        s.after_text(line_feeds(s.rows() as nat)).row == 0,
        s.after_text(line_feeds(s.rows() as nat)).col == 0,
        s.scrolls(line_feeds(s.rows() as nat)) == 1,
        s.after_text(line_feeds(s.rows() as nat)).memory == filled(
            s.memory,
            s.geometry,
            paper(s.geometry),
        ),
{
    let count = s.rows() as nat;
    let earlier = (count - 1) as nat;
    assert(line_feeds(count).drop_last() =~= line_feeds(earlier));
    lemma_line_feeds_move_down(s, earlier);
    lemma_after_text_valid(s, line_feeds(earlier));
}

} // verus!
