//! The text console: a cursor over a grid of character cells, drawn straight
//! into the framebuffer.
//!
//! [`TextConsole`] is a console that is bound to a framebuffer. [`Console`]
//! is the handle the kernel holds from its first instruction on: it starts
//! out unbound, is bound exactly once, and stays bound.

use vstd::prelude::*;
use crate::constants::vga::{CHAR_HEIGHT, CHAR_WIDTH};
use crate::error::{KernelError, KernelResult, SafeWrite};
use crate::font::glyph_for;
use crate::format::render;
use crate::geometry::{FramebufferDescriptor, Geometry};
use crate::pixel::{background, encode, foreground, EncodedPixel};
use crate::surface::Surface;
use crate::text::{
    hosts_text, ink, lemma_after_text_push, paper, TextState, CARRIAGE_RETURN, LINE_FEED,
};

verus! {

/// A console bound to a framebuffer.
#[derive(Debug)]
pub struct TextConsole<'a> {
    surface: Surface<'a>,
    cols: usize,
    rows: usize,
    cursor_row: usize,
    cursor_col: usize,
    ink: EncodedPixel,
    paper: EncodedPixel,
}

impl<'a> TextConsole<'a> {
    /// The grid is the one the surface has room for, the cursor is on a
    /// cell of it, and the cached ink and paper are the text colours in the
    /// surface's encoding.
    #[verifier::type_invariant]
    spec fn well_formed(self) -> bool {
        &&& self.surface.geometry().valid()
        &&& self.surface.geometry().span() <= self.surface@.len()
        &&& self.cols == self.surface.geometry().cols()
        &&& self.rows == self.surface.geometry().rows()
        &&& self.cursor_row < self.rows
        &&& self.cursor_col < self.cols
        &&& self.ink@ == ink(self.surface.geometry())
        &&& self.paper@ == paper(self.surface.geometry())
    }

    /// The console's screen and cursor.
    pub closed spec fn view(&self) -> TextState {
        TextState {
            memory: self.surface@,
            geometry: self.surface.geometry(),
            row: self.cursor_row as int,
            col: self.cursor_col as int,
        }
    }

    /// Turns a surface into a console: clears it to the paper colour and
    /// puts the cursor in the top left cell.
    ///
    /// Fails with [`KernelError::FrameBufferUnavailable`] when the surface
    /// is smaller than one character cell.
    pub fn new(surface: Surface<'a>) -> (console: Result<TextConsole<'a>, KernelError>)
        ensures
            match console {
                Ok(c) => surface.geometry().cols() > 0 && surface.geometry().rows() > 0 && c@
                    == TextState::fresh(surface@, surface.geometry()),
                Err(e) => e == KernelError::FrameBufferUnavailable && !(surface.geometry().cols()
                    > 0 && surface.geometry().rows() > 0),
            },
    {
        let mut surface = surface;
        let g: Geometry = surface.geometry();
        let cols: usize = g.width / CHAR_WIDTH;
        let rows: usize = g.height / CHAR_HEIGHT;
        if cols == 0 || rows == 0 {
            return Err(KernelError::FrameBufferUnavailable);
        }
        let ink = encode(foreground(), g.format);
        let paper = encode(background(), g.format);
        surface.fill(&paper);
        Ok(TextConsole { surface, cols, rows, cursor_row: 0, cursor_col: 0, ink, paper })
    }

    /// Character cells per row.
    pub fn cols(&self) -> (cols: usize)
        ensures
            cols == self@.cols(),
            self@.valid(),
    {
        proof {
            use_type_invariant(self);
        }
        self.cols
    }

    /// Rows of text.
    pub fn rows(&self) -> (rows: usize)
        ensures
            rows == self@.rows(),
            self@.valid(),
    {
        proof {
            use_type_invariant(self);
        }
        self.rows
    }

    /// Row of the cell the next glyph goes to.
    pub fn cursor_row(&self) -> (row: usize)
        ensures
            row == self@.row,
            self@.valid(),
    {
        proof {
            use_type_invariant(self);
        }
        self.cursor_row
    }

    /// Column of the cell the next glyph goes to.
    pub fn cursor_col(&self) -> (col: usize)
        ensures
            col == self@.col,
            self@.valid(),
    {
        proof {
            use_type_invariant(self);
        }
        self.cursor_col
    }

    /// The layout of the framebuffer under the console.
    pub fn geometry(&self) -> (g: Geometry)
        ensures
            g == self@.geometry,
            self@.valid(),
    {
        proof {
            use_type_invariant(self);
        }
        self.surface.geometry()
    }

    /// Reads the bytes of the pixel at `(x, y)`, or nothing when the position
    /// is outside the visible area.
    pub fn read_pixel(&self, x: usize, y: usize) -> (pixel: Option<Vec<u8>>)
        ensures
            match pixel {
                Some(bytes) => self@.geometry.contains(x as int, y as int) && bytes@
                    == crate::raster::pixel_at(self@.memory, self@.geometry, x as int, y as int),
                None => !self@.geometry.contains(x as int, y as int),
            },
    {
        self.surface.read_pixel(x, y)
    }

    /// Reads one byte of input: moves the cursor for a line feed or a
    /// carriage return, draws the glyph of any other byte at the cursor and
    /// moves on, and scrolls when the cursor leaves the last row.
    pub fn write_byte(&mut self, byte: u8)
        ensures
            final(self)@ == old(self)@.after_byte(byte),
    {
        proof {
            use_type_invariant(&*self);
        }
        let ghost before = self@;
        let mut row: usize = self.cursor_row;
        let mut col: usize = self.cursor_col;
        if byte == LINE_FEED {
            row = row + 1;
            col = 0;
        } else if byte == CARRIAGE_RETURN {
            col = 0;
        } else {
            let glyph = glyph_for(byte);
            assert(col * CHAR_WIDTH + CHAR_WIDTH <= self.surface.geometry().width && row
                * CHAR_HEIGHT + CHAR_HEIGHT <= self.surface.geometry().height);
            self.surface.blit(col * CHAR_WIDTH, row * CHAR_HEIGHT, &glyph, &self.ink, &self.paper);
            col = col + 1;
            if col == self.cols {
                col = 0;
                row = row + 1;
            }
        }
        assert(before.advanced(byte) == (TextState {
            memory: self.surface@,
            geometry: self.surface.geometry(),
            row: row as int,
            col: col as int,
        }));
        if row == self.rows {
            self.surface.fill(&self.paper);
            row = 0;
        }
        self.cursor_row = row;
        self.cursor_col = col;
    }

    /// Reads `text`, first byte first.
    pub fn write(&mut self, text: &[u8])
        ensures
            final(self)@ == old(self)@.after_text(text@),
    {
        let ghost before = self@;
        let mut index: usize = 0;
        while index < text.len()
            invariant
                index <= text@.len(),
                self@ == before.after_text(text@.subrange(0, index as int)),
            decreases text@.len() - index,
        {
            self.write_byte(text[index]);
            proof {
                lemma_after_text_push(before, text@.subrange(0, index as int), text@[index as int]);
                assert(text@.subrange(0, index + 1) =~= text@.subrange(0, index as int).push(
                    text@[index as int],
                ));
            }
            index += 1;
        }
        assert(text@.subrange(0, index as int) =~= text@);
    }
}

/// The kernel's handle on its console.
///
/// The handle starts out unbound. Binding it to a framebuffer succeeds at
/// most once; from then on the console is ready for the rest of the
/// kernel's life, and a second attempt to bind it is refused, so that no two
/// owners ever draw into the same memory.
#[derive(Debug)]
pub struct Console<'a> {
    bound: Option<TextConsole<'a>>,
}

impl<'a> Console<'a> {
    /// The screen and cursor of a console that is ready; nothing for one
    /// that is not.
    pub closed spec fn view(&self) -> Option<TextState> {
        match self.bound {
            Some(console) => Some(console@),
            None => None,
        }
    }

    /// A console that is not yet bound to a framebuffer.
    pub fn new() -> (console: Console<'a>)
        ensures
            console@ is None,
    {
        Console { bound: None }
    }

    /// Whether the console has been bound to a framebuffer.
    pub fn is_ready(&self) -> (ready: bool)
        ensures
            ready == (self@ is Some),
    {
        self.bound.is_some()
    }

    /// Binds the console to the framebuffer that `descriptor` reports in
    /// `memory`, clears the screen and puts the cursor in the top left cell.
    ///
    /// A console that is already bound refuses with
    /// [`KernelError::HardwareError`] and stays exactly as it is. Otherwise
    /// the call fails with [`KernelError::FrameBufferUnavailable`] when there
    /// is no descriptor, when the region cannot be drawn on as it says, or
    /// when it has no room for a single character cell; the console then
    /// stays unbound.
    pub fn initialize(
        &mut self,
        descriptor: Option<FramebufferDescriptor>,
        memory: &'a mut [u8],
    ) -> (outcome: KernelResult<()>)
        ensures
            match outcome {
                Ok(()) => {
                    &&& old(self)@ is None
                    &&& descriptor matches Some(d)
                    &&& hosts_text(d, old(memory)@.len() as int)
                    &&& final(self)@ == Some(TextState::fresh(old(memory)@, d.geometry()))
                },
                Err(e) => final(self)@ == old(self)@ && if old(self)@ is Some {
                    e == KernelError::HardwareError
                } else {
                    e == KernelError::FrameBufferUnavailable && !(descriptor matches Some(d)
                        && hosts_text(d, old(memory)@.len() as int))
                },
            },
    {
        if self.bound.is_some() {
            return Err(KernelError::HardwareError);
        }
        let surface = match Surface::initialize(descriptor, memory) {
            Ok(surface) => surface,
            Err(e) => {
                return Err(e);
            },
        };
        match TextConsole::new(surface) {
            Ok(console) => {
                self.bound = Some(console);
                Ok(())
            },
            Err(e) => Err(e),
        }
    }

    /// Where the cursor stands, as row and column, once the console is
    /// ready.
    pub fn cursor(&self) -> (cursor: Option<(usize, usize)>)
        ensures
            match cursor {
                Some((row, col)) => self@ matches Some(s) && row == s.row && col == s.col
                    && s.valid(),
                None => self@ is None,
            },
    {
        match &self.bound {
            Some(console) => Some((console.cursor_row(), console.cursor_col())),
            None => None,
        }
    }

    /// The size of the grid, as columns and rows, once the console is
    /// ready.
    pub fn size(&self) -> (size: Option<(usize, usize)>)
        ensures
            match size {
                Some((cols, rows)) => self@ matches Some(s) && cols == s.cols() && rows
                    == s.rows() && s.valid(),
                None => self@ is None,
            },
    {
        match &self.bound {
            Some(console) => Some((console.cols(), console.rows())),
            None => None,
        }
    }

    /// Reads the bytes of the pixel at `(x, y)`, or nothing when the console
    /// is not ready or the position is outside the visible area.
    pub fn read_pixel(&self, x: usize, y: usize) -> (pixel: Option<Vec<u8>>)
        ensures
            match pixel {
                Some(bytes) => self@ matches Some(s) && s.geometry.contains(x as int, y as int)
                    && bytes@ == crate::raster::pixel_at(s.memory, s.geometry, x as int, y as int),
                None => !(self@ matches Some(s) && s.geometry.contains(x as int, y as int)),
            },
    {
        match &self.bound {
            Some(console) => console.read_pixel(x, y),
            None => None,
        }
    }

    /// Writes `text` to the screen, first byte first.
    ///
    /// Fails with [`KernelError::FrameBufferUnavailable`], and does nothing,
    /// when the console is not ready. On a console that is ready it always
    /// succeeds.
    pub fn write(&mut self, text: &[u8]) -> (outcome: KernelResult<()>)
        ensures
            match old(self)@ {
                Some(s) => outcome == Ok::<(), KernelError>(()) && final(self)@ == Some(
                    s.after_text(text@),
                ),
                None => outcome == Err::<(), KernelError>(KernelError::FrameBufferUnavailable)
                    && final(self)@ is None,
            },
    {
        match &mut self.bound {
            Some(console) => {
                console.write(text);
                Ok(())
            },
            None => Err(KernelError::FrameBufferUnavailable),
        }
    }

    /// Writes `text` if the console is ready and does nothing if it is not.
    /// For callers that have no way to handle a failure, such as the logger
    /// and the panic handler.
    pub fn write_best_effort(&mut self, text: &[u8])
        ensures
            match old(self)@ {
                Some(s) => final(self)@ == Some(s.after_text(text@)),
                None => final(self)@ is None,
            },
    {
        let _ = self.write(text);
    }

    /// Writes text that the caller's formatting machinery has produced, or
    /// reports that it produced none.
    ///
    /// A console that is not ready fails with
    /// [`KernelError::FrameBufferUnavailable`] whatever the formatting came
    /// to. On a console that is ready a formatting failure becomes
    /// [`KernelError::WriteFailed`] and nothing is drawn; formatted text is
    /// written as its UTF-8 bytes.
    pub fn write_rendered(&mut self, rendered: Result<String, core::fmt::Error>) -> (outcome:
        KernelResult<()>)
        ensures
            match (old(self)@, rendered) {
                (Some(s), Ok(text)) => outcome == Ok::<(), KernelError>(()) && final(self)@
                    == Some(s.after_text(vstd::utf8::encode_utf8(text@))),
                (Some(s), Err(_)) => outcome == Err::<(), KernelError>(KernelError::WriteFailed)
                    && final(self)@ == old(self)@,
                (None, _) => outcome == Err::<(), KernelError>(
                    KernelError::FrameBufferUnavailable,
                ) && final(self)@ is None,
            },
    {
        if !self.is_ready() {
            return Err(KernelError::FrameBufferUnavailable);
        }
        match rendered {
            Ok(text) => self.write(text.as_str().as_bytes()),
            Err(e) => Err(KernelError::from(e)),
        }
    }
}

impl<'a> SafeWrite for Console<'a> {
    /// Writes the UTF-8 bytes of `s` to the screen.
    fn safe_write_str(&mut self, s: &str) -> (outcome: KernelResult<()>)
        ensures
            match old(self)@ {
                Some(state) => outcome == Ok::<(), KernelError>(()) && final(self)@ == Some(
                    state.after_text(vstd::utf8::encode_utf8(s@)),
                ),
                None => outcome == Err::<(), KernelError>(KernelError::FrameBufferUnavailable)
                    && final(self)@ is None,
            },
    {
        self.write(s.as_bytes())
    }

    /// Formats `args` and writes the text to the screen. A console that is
    /// not ready fails before anything is formatted.
    fn safe_write_fmt(&mut self, args: core::fmt::Arguments<'_>) -> (outcome: KernelResult<()>)
        ensures
            match old(self)@ {
                Some(state) => match outcome {
                    Ok(()) => exists|text: Seq<char>| final(self)@ == Some(
                        #[trigger] state.after_text(vstd::utf8::encode_utf8(text)),
                    ),
                    Err(e) => e == KernelError::WriteFailed && final(self)@ == old(self)@,
                },
                None => outcome == Err::<(), KernelError>(KernelError::FrameBufferUnavailable)
                    && final(self)@ is None,
            },
    {
        if !self.is_ready() {
            return Err(KernelError::FrameBufferUnavailable);
        }
        let rendered = render(args);
        self.write_rendered(rendered)
    }
}

} // verus!
