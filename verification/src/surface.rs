//! The framebuffer surface: the memory region the bootloader handed over,
//! together with its layout, behind a bounds-checked pixel interface.
//!
//! A surface holds the only mutable view of the region for as long as it
//! lives. Every store is immediate; nothing is buffered.

use vstd::prelude::*;
use crate::constants::vga::{CHAR_HEIGHT, CHAR_WIDTH};
use crate::error::KernelError;
use crate::font::Glyph;
use crate::geometry::{
    lemma_byte_location, lemma_pixel_bytes, lemma_pixel_location, FramebufferDescriptor, Geometry,
};
use crate::pixel::{encode, encoded, Color, EncodedPixel};
use crate::raster::{
    filled, filled_upto, lemma_fill_ends, lemma_fill_step, lemma_glyph_ends, lemma_glyph_step,
    pixel_at, with_glyph, with_glyph_upto, with_pixel,
};

verus! {

/// A framebuffer that can be drawn on.
#[derive(Debug)]
pub struct Surface<'a> {
    memory: &'a mut [u8],
    geometry: Geometry,
}

impl<'a> Surface<'a> {
    /// The layout has at least one pixel, and the region holds every
    /// scanline of it.
    #[verifier::type_invariant]
    spec fn well_formed(self) -> bool {
        &&& self.geometry.valid()
        &&& self.geometry.span() <= self.memory@.len()
    }

    /// The bytes of the memory region, lowest address first.
    pub closed spec fn view(&self) -> Seq<u8> {
        self.memory@
    }

    /// The layout of the region.
    pub closed spec fn spec_geometry(&self) -> Geometry {
        self.geometry
    }

    /// The layout of the region. It has at least one pixel, and the region
    /// holds every scanline.
    #[verifier::when_used_as_spec(spec_geometry)]
    pub fn geometry(&self) -> (g: Geometry)
        ensures
            g == self.spec_geometry(),
            g.valid(),
            g.span() <= self@.len(),
    {
        proof {
            use_type_invariant(self);
        }
        self.geometry
    }

    /// Binds the memory region to the layout that `descriptor` reports.
    ///
    /// Fails with [`KernelError::FrameBufferUnavailable`] when there is no
    /// descriptor, when it reports no pixels, or when the region cannot hold
    /// what it reports. Nothing is drawn.
    pub fn initialize(descriptor: Option<FramebufferDescriptor>, memory: &'a mut [u8]) -> (surface:
        Result<Surface<'a>, KernelError>)
        ensures
            match surface {
                Ok(s) => descriptor matches Some(d) && d.usable(old(memory)@.len() as int) && s@
                    == old(memory)@ && s.geometry() == d.geometry(),
                Err(e) => e == KernelError::FrameBufferUnavailable && !(descriptor matches Some(d)
                    && d.usable(old(memory)@.len() as int)),
            },
    {
        let d = match descriptor {
            Some(d) => d,
            None => {
                return Err(KernelError::FrameBufferUnavailable);
            },
        };
        if d.width == 0 || d.height == 0 {
            return Err(KernelError::FrameBufferUnavailable);
        }
        let bytes_per_pixel: u64 = d.bytes_per_pixel() as u64;
        assert(d.width * bytes_per_pixel <= 0xffff_ffff * 4) by (nonlinear_arith)
            requires
                d.width <= 0xffff_ffff,
                bytes_per_pixel <= 4,
        ;
        let row_bytes: u64 = d.width as u64 * bytes_per_pixel;
        if row_bytes > d.stride_bytes {
            return Err(KernelError::FrameBufferUnavailable);
        }
        assert(d.stride_bytes * d.height <= 0xffff_ffff_ffff_ffff * 0xffff_ffff) by (nonlinear_arith)
            requires
                d.stride_bytes <= 0xffff_ffff_ffff_ffff,
                d.height <= 0xffff_ffff,
        ;
        let span: u128 = d.stride_bytes as u128 * d.height as u128;
        if span > memory.len() as u128 {
            return Err(KernelError::FrameBufferUnavailable);
        }
        assert(d.stride_bytes <= d.stride_bytes * d.height) by (nonlinear_arith)
            requires
                d.height >= 1,
        ;
        let geometry = Geometry {
            width: d.width as usize,
            height: d.height as usize,
            stride: d.stride_bytes as usize,
            format: d.pixel_format,
        };
        Ok(Surface { memory, geometry })
    }

    /// Stores an encoded pixel at a visible position.
    fn store(&mut self, x: usize, y: usize, pixel: &EncodedPixel)
        requires
            old(self).geometry().contains(x as int, y as int),
            pixel@.len() == old(self).geometry().bpp(),
        ensures
            final(self).geometry() == old(self).geometry(),
            final(self)@ == with_pixel(old(self)@, old(self).geometry(), x as int, y as int, pixel@),
        no_unwind
    {
        let ghost g = self.geometry;
        let ghost before = self.memory@;
        proof {
            use_type_invariant(&*self);
            lemma_pixel_bytes(g, x as int, y as int);
            assert(0 <= y * g.stride && 0 <= x * g.bpp()) by (nonlinear_arith)
                requires
                    0 <= g.stride,
                    0 <= g.bpp(),
            ;
        }
        let bytes_per_pixel: usize = pixel.len();
        let ghost len = vstd::slice::spec_slice_len(&*self.memory);
        assert(g.offset(x as int, y as int) + g.bpp() <= len);
        assert(y * g.stride <= g.offset(x as int, y as int));
        assert(x * bytes_per_pixel <= g.offset(x as int, y as int));
        let start: usize = y * self.geometry.stride + x * bytes_per_pixel;
        let mut k: usize = 0;
        while k < bytes_per_pixel
            invariant
                k <= bytes_per_pixel,
                bytes_per_pixel == g.bpp(),
                pixel@.len() == g.bpp(),
                before.len() == len,
                self.geometry == g,
                g.valid(),
                start == g.offset(x as int, y as int),
                start + g.bpp() <= g.span() <= before.len(),
                self.memory@.len() == before.len(),
                forall|i: int|
                    0 <= i < before.len() ==> #[trigger] self.memory@[i] == (if start <= i < start
                        + k {
                        pixel@[i - start]
                    } else {
                        before[i]
                    }),
            decreases bytes_per_pixel - k,
        {
            let value: u8 = pixel.byte(k);
            self.memory[start + k] = value;
            k += 1;
        }
        assert forall|i: int| 0 <= i < before.len() implies #[trigger] self.memory@[i]
            == with_pixel(before, g, x as int, y as int, pixel@)[i] by {
            if start <= i < start + g.bpp() {
                lemma_pixel_location(g, x as int, y as int, i - start);
            } else if g.covers(i) {
                lemma_byte_location(g, i);
            }
        }
        assert(self.memory@ =~= with_pixel(before, g, x as int, y as int, pixel@));
    }

    /// Sets the pixel at `(x, y)` to `color`, in the layout's encoding.
    ///
    /// A position outside the visible area is not an error: the call then
    /// does nothing at all.
    pub fn set_pixel(&mut self, x: usize, y: usize, color: Color)
        ensures
            final(self).geometry() == old(self).geometry(),
            final(self)@ == with_pixel(
                old(self)@,
                old(self).geometry(),
                x as int,
                y as int,
                encoded(color, old(self).geometry().format),
            ),
            old(self).geometry().contains(x as int, y as int) ==> pixel_at(
                final(self)@,
                old(self).geometry(),
                x as int,
                y as int,
            ) == encoded(color, old(self).geometry().format),
            !old(self).geometry().contains(x as int, y as int) ==> final(self)@ == old(self)@,
        no_unwind
    {
        proof {
            use_type_invariant(&*self);
            crate::raster::lemma_set_pixel_reads_back(
                self.memory@,
                self.geometry,
                x as int,
                y as int,
                encoded(color, self.geometry.format),
            );
        }
        if x < self.geometry.width && y < self.geometry.height {
            let pixel = encode(color, self.geometry.format);
            self.store(x, y, &pixel);
        }
    }

    /// Reads the bytes of the pixel at `(x, y)`, or nothing when the position
    /// is outside the visible area.
    pub fn read_pixel(&self, x: usize, y: usize) -> (pixel: Option<Vec<u8>>)
        ensures
            match pixel {
                Some(bytes) => self.geometry().contains(x as int, y as int) && bytes@ == pixel_at(
                    self@,
                    self.geometry(),
                    x as int,
                    y as int,
                ),
                None => !self.geometry().contains(x as int, y as int),
            },
    {
        if x < self.geometry.width && y < self.geometry.height {
            let ghost g = self.geometry;
            proof {
                use_type_invariant(self);
                lemma_pixel_bytes(g, x as int, y as int);
                assert(0 <= y * g.stride && 0 <= x * g.bpp()) by (nonlinear_arith)
                    requires
                        0 <= g.stride,
                        0 <= g.bpp(),
                ;
            }
            let bytes_per_pixel: usize = self.geometry.format.bytes_per_pixel();
            let len: usize = self.memory.len();
            assert(g.offset(x as int, y as int) + g.bpp() <= len);
            assert(y * g.stride <= g.offset(x as int, y as int));
            assert(x * bytes_per_pixel <= g.offset(x as int, y as int));
            let start: usize = y * self.geometry.stride + x * bytes_per_pixel;
            let mut bytes: Vec<u8> = Vec::new();
            let mut k: usize = 0;
            while k < bytes_per_pixel
                invariant
                    k <= bytes_per_pixel,
                    self.memory@.len() == len,
                    bytes_per_pixel == g.bpp(),
                    start == g.offset(x as int, y as int),
                    start + g.bpp() <= g.span() <= self.memory@.len(),
                    bytes@ == self.memory@.subrange(start as int, start + k),
                decreases bytes_per_pixel - k,
            {
                bytes.push(self.memory[start + k]);
                k += 1;
                assert(bytes@ =~= self.memory@.subrange(start as int, start + k));
            }
            Some(bytes)
        } else {
            None
        }
    }

    /// Sets every visible pixel to `color`. Padding is left as it is.
    pub fn clear(&mut self, color: Color)
        ensures
            final(self).geometry() == old(self).geometry(),
            final(self)@ == filled(
                old(self)@,
                old(self).geometry(),
                encoded(color, old(self).geometry().format),
            ),
        no_unwind
    {
        let pixel = encode(color, self.geometry.format);
        self.fill(&pixel);
    }

    /// Sets every visible pixel to an encoded colour. Padding is left as it
    /// is.
    pub(crate) fn fill(&mut self, pixel: &EncodedPixel)
        requires
            pixel@.len() == old(self).geometry().bpp(),
        ensures
            final(self).geometry() == old(self).geometry(),
            final(self)@ == filled(old(self)@, old(self).geometry(), pixel@),
        no_unwind
    {
        let ghost g = self.geometry;
        let ghost before = self.memory@;
        let width: usize = self.geometry.width;
        let height: usize = self.geometry.height;
        proof {
            use_type_invariant(&*self);
            lemma_fill_ends(before, g, pixel@);
        }
        let mut y: usize = 0;
        while y < height
            invariant
                y <= height,
                width == g.width,
                height == g.height,
                g.valid(),
                self.geometry() == g,
                pixel@.len() == g.bpp(),
                self@ == filled_upto(before, g, pixel@, 0, y as int),
            decreases height - y,
        {
            let mut x: usize = 0;
            while x < width
                invariant
                    x <= width,
                    y < height,
                    width == g.width,
                    height == g.height,
                    g.valid(),
                    self.geometry() == g,
                    pixel@.len() == g.bpp(),
                    self@ == filled_upto(before, g, pixel@, x as int, y as int),
                decreases width - x,
            {
                proof {
                    lemma_fill_step(before, g, pixel@, x as int, y as int);
                }
                self.store(x, y, pixel);
                x += 1;
            }
            proof {
                lemma_fill_step(before, g, pixel@, 0, y as int);
            }
            y += 1;
        }
    }

    /// Draws `glyph` with the top left pixel of its cell at `(left, top)`:
    /// `ink` where a bit of the glyph is set, `paper` where it is clear.
    /// Pixels of the cell that fall outside the visible area are skipped.
    pub fn draw_glyph(&mut self, left: usize, top: usize, glyph: &Glyph, ink: Color, paper: Color)
        ensures
            final(self).geometry() == old(self).geometry(),
            final(self)@ == with_glyph(
                old(self)@,
                old(self).geometry(),
                left as int,
                top as int,
                *glyph,
                encoded(ink, old(self).geometry().format),
                encoded(paper, old(self).geometry().format),
            ),
        no_unwind
    {
        let ink_pixel = encode(ink, self.geometry.format);
        let paper_pixel = encode(paper, self.geometry.format);
        self.blit(left, top, glyph, &ink_pixel, &paper_pixel);
    }

    /// Draws `glyph` in encoded colours with the top left pixel of its cell
    /// at `(left, top)`. Pixels of the cell that fall outside the visible
    /// area are skipped.
    pub(crate) fn blit(
        &mut self,
        left: usize,
        top: usize,
        glyph: &Glyph,
        ink: &EncodedPixel,
        paper: &EncodedPixel,
    )
        requires
            ink@.len() == old(self).geometry().bpp(),
            paper@.len() == old(self).geometry().bpp(),
        ensures
            final(self).geometry() == old(self).geometry(),
            final(self)@ == with_glyph(
                old(self)@,
                old(self).geometry(),
                left as int,
                top as int,
                *glyph,
                ink@,
                paper@,
            ),
        no_unwind
    {
        let ghost g = self.geometry;
        let ghost before = self.memory@;
        let width: usize = self.geometry.width;
        let height: usize = self.geometry.height;
        proof {
            use_type_invariant(&*self);
            lemma_glyph_ends(before, g, left as int, top as int, *glyph, ink@, paper@);
        }
        let mut row: usize = 0;
        while row < CHAR_HEIGHT
            invariant
                row <= CHAR_HEIGHT,
                width == g.width,
                height == g.height,
                g.valid(),
                self.geometry() == g,
                ink@.len() == g.bpp(),
                paper@.len() == g.bpp(),
                self@ == with_glyph_upto(
                    before,
                    g,
                    left as int,
                    top as int,
                    *glyph,
                    ink@,
                    paper@,
                    0,
                    row as int,
                ),
            decreases CHAR_HEIGHT - row,
        {
            let mut col: usize = 0;
            while col < CHAR_WIDTH
                invariant
                    col <= CHAR_WIDTH,
                    row < CHAR_HEIGHT,
                    width == g.width,
                    height == g.height,
                    g.valid(),
                    self.geometry() == g,
                    ink@.len() == g.bpp(),
                    paper@.len() == g.bpp(),
                    self@ == with_glyph_upto(
                        before,
                        g,
                        left as int,
                        top as int,
                        *glyph,
                        ink@,
                        paper@,
                        col as int,
                        row as int,
                    ),
                decreases CHAR_WIDTH - col,
            {
                proof {
                    lemma_glyph_step(
                        before,
                        g,
                        left as int,
                        top as int,
                        *glyph,
                        ink@,
                        paper@,
                        col as int,
                        row as int,
                    );
                }
                if left < width && col < width - left && top < height && row < height - top {
                    if glyph.is_set(col, row) {
                        self.store(left + col, top + row, ink);
                    } else {
                        self.store(left + col, top + row, paper);
                    }
                }
                col += 1;
            }
            proof {
                lemma_glyph_step(
                    before,
                    g,
                    left as int,
                    top as int,
                    *glyph,
                    ink@,
                    paper@,
                    0,
                    row as int,
                );
            }
            row += 1;
        }
    }
}

} // verus!
