//! Where each pixel lives in framebuffer memory.
//!
//! A framebuffer is `height` scanlines of `stride` bytes. Within a scanline
//! the first `width` pixels are visible, each `bytes_per_pixel` bytes wide;
//! what is left of the scanline is padding that nothing ever draws into.
//! This module maps pixel coordinates to byte offsets and back, and proves
//! that the two directions agree.

use vstd::prelude::*;
use vstd::arithmetic::div_mod::{lemma_fundamental_div_mod, lemma_fundamental_div_mod_converse};
use crate::constants::vga::{CHAR_HEIGHT, CHAR_WIDTH};
use crate::pixel::PixelFormat;

verus! {

/// A framebuffer as the bootloader describes it.
#[derive(Debug, Clone, Copy, PartialEq, Eq, Structural)]
pub struct FramebufferDescriptor {
    /// Visible pixels per scanline.
    pub width: u32,
    /// Number of scanlines.
    pub height: u32,
    /// Bytes from the start of one scanline to the start of the next.
    pub stride_bytes: u64,
    /// Byte layout of one pixel.
    pub pixel_format: PixelFormat,
}

impl FramebufferDescriptor {
    /// Whether a memory region of `len` bytes can be drawn on as this
    /// descriptor says: there is at least one pixel, a scanline holds its
    /// visible pixels, and the region holds every scanline.
    pub open spec fn usable(self, len: int) -> bool {
        &&& self.width > 0
        &&& self.height > 0
        &&& self.width * self.pixel_format.spec_bytes_per_pixel() <= self.stride_bytes
        &&& self.stride_bytes * self.height <= len
    }

    /// The descriptor's numbers as offsets into memory.
    pub open spec fn geometry(self) -> Geometry {
        Geometry {
            width: self.width as usize,
            height: self.height as usize,
            stride: self.stride_bytes as usize,
            format: self.pixel_format,
        }
    }

    /// Describes a framebuffer without padding: each scanline is exactly as
    /// long as its visible pixels.
    pub fn new(width: u32, height: u32, pixel_format: PixelFormat) -> (descriptor: Self)
        ensures
            descriptor.width == width,
            descriptor.height == height,
            descriptor.pixel_format == pixel_format,
            descriptor.stride_bytes == width * pixel_format.spec_bytes_per_pixel(),
    {
        let bytes_per_pixel: u64 = pixel_format.bytes_per_pixel() as u64;
        assert(width * bytes_per_pixel <= 0xffff_ffff * 4) by (nonlinear_arith)
            requires
                width <= 0xffff_ffff,
                bytes_per_pixel <= 4,
        ;
        FramebufferDescriptor {
            width,
            height,
            stride_bytes: width as u64 * bytes_per_pixel,
            pixel_format,
        }
    }

    /// Number of bytes one pixel occupies.
    pub fn bytes_per_pixel(&self) -> (count: usize)
        ensures
            count == self.pixel_format.spec_bytes_per_pixel(),
            1 <= count <= 4,
    {
        self.pixel_format.bytes_per_pixel()
    }
}

/// The channel order a bootloader reports for its framebuffer.
#[derive(Debug, Clone, Copy, PartialEq, Eq, Structural)]
pub enum ReportedFormat {
    /// Red, green, blue.
    Rgb,
    /// Blue, green, red.
    Bgr,
    /// A single channel of brightness.
    U8,
    /// Anything else.
    Unknown,
}

/// The pixel layout the console draws in, for a channel order and a pixel
/// width that the bootloader reports.
///
/// The three layouts the console knows are taken at their natural width. A
/// pixel four bytes wide is drawn in the layout for unknown displays,
/// whatever its channel order: on a four-byte red-green-blue display that is
/// exact, and on any other the text is still there, if in the wrong colour.
/// Other widths cannot be drawn on.
pub open spec fn layout_for(reported: ReportedFormat, bytes_per_pixel: usize) -> Option<
    PixelFormat,
> {
    if bytes_per_pixel == 4 {
        Some(PixelFormat::Unknown)
    } else if reported == ReportedFormat::Rgb && bytes_per_pixel == 3 {
        Some(PixelFormat::Rgb8)
    } else if reported == ReportedFormat::Bgr && bytes_per_pixel == 3 {
        Some(PixelFormat::Bgr8)
    } else if reported == ReportedFormat::U8 && bytes_per_pixel == 1 {
        Some(PixelFormat::U8Grayscale)
    } else {
        None
    }
}

/// The descriptor for a framebuffer that a bootloader reports in pixels:
/// nothing when the console has no layout for it, or when one of its
/// numbers is too large for a descriptor.
pub open spec fn described(
    width: usize,
    height: usize,
    stride_pixels: usize,
    bytes_per_pixel: usize,
    reported: ReportedFormat,
) -> Option<FramebufferDescriptor> {
    match layout_for(reported, bytes_per_pixel) {
        Some(pixel_format) => if width <= u32::MAX && height <= u32::MAX && stride_pixels
            * bytes_per_pixel <= u64::MAX {
            Some(
                FramebufferDescriptor {
                    width: width as u32,
                    height: height as u32,
                    stride_bytes: (stride_pixels * bytes_per_pixel) as u64,
                    pixel_format,
                },
            )
        } else {
            None
        },
        None => None,
    }
}

/// Turns a bootloader's report, which counts a scanline in pixels and gives
/// the pixel width apart from the channel order, into a descriptor.
pub fn describe(
    width: usize,
    height: usize,
    stride_pixels: usize,
    bytes_per_pixel: usize,
    reported: ReportedFormat,
) -> (descriptor: Option<FramebufferDescriptor>)
    ensures
        descriptor == described(width, height, stride_pixels, bytes_per_pixel, reported),
{
    let pixel_format = if bytes_per_pixel == 4 {
        PixelFormat::Unknown
    } else if bytes_per_pixel == 3 {
        match reported {
            ReportedFormat::Rgb => PixelFormat::Rgb8,
            ReportedFormat::Bgr => PixelFormat::Bgr8,
            _ => {
                return None;
            },
        }
    } else if bytes_per_pixel == 1 {
        match reported {
            ReportedFormat::U8 => PixelFormat::U8Grayscale,
            _ => {
                return None;
            },
        }
    } else {
        return None;
    };
    if width > u32::MAX as usize || height > u32::MAX as usize {
        return None;
    }
    assert(stride_pixels * bytes_per_pixel <= 0xffff_ffff_ffff_ffff * 4) by (nonlinear_arith)
        requires
            stride_pixels <= 0xffff_ffff_ffff_ffff,
            bytes_per_pixel <= 4,
    ;
    let stride_bytes: u128 = stride_pixels as u128 * bytes_per_pixel as u128;
    if stride_bytes > u64::MAX as u128 {
        return None;
    }
    Some(
        FramebufferDescriptor {
            width: width as u32,
            height: height as u32,
            stride_bytes: stride_bytes as u64,
            pixel_format,
        },
    )
}

/// The layout of a framebuffer in memory, in units of bytes and pixels.
#[derive(Debug, Clone, Copy, PartialEq, Eq, Structural)]
pub struct Geometry {
    /// Visible pixels per scanline.
    pub width: usize,
    /// Number of scanlines.
    pub height: usize,
    /// Bytes from the start of one scanline to the start of the next.
    pub stride: usize,
    /// Byte layout of one pixel.
    pub format: PixelFormat,
}

impl Geometry {
    /// Bytes per pixel.
    pub open spec fn bpp(self) -> int {
        self.format.spec_bytes_per_pixel() as int
    }

    /// There is at least one pixel and a scanline holds its visible pixels.
    pub open spec fn valid(self) -> bool {
        &&& self.width > 0
        &&& self.height > 0
        &&& self.width * self.bpp() <= self.stride
    }

    /// Number of bytes the scanlines span.
    pub open spec fn span(self) -> int {
        self.stride * self.height
    }

    /// Whether `(x, y)` is a visible pixel.
    pub open spec fn contains(self, x: int, y: int) -> bool {
        0 <= x < self.width && 0 <= y < self.height
    }

    /// Offset of the first byte of pixel `(x, y)`.
    pub open spec fn offset(self, x: int, y: int) -> int {
        y * self.stride + x * self.bpp()
    }

    /// Whether the byte at offset `i` belongs to a visible pixel, rather
    /// than to padding or to memory behind the last scanline.
    pub open spec fn covers(self, i: int) -> bool {
        0 <= i < self.span() && i % (self.stride as int) < self.width * self.bpp()
    }

    /// Column of the pixel that the byte at offset `i` belongs to.
    pub open spec fn pixel_x(self, i: int) -> int {
        (i % (self.stride as int)) / self.bpp()
    }

    /// Scanline of the pixel that the byte at offset `i` belongs to.
    pub open spec fn pixel_y(self, i: int) -> int {
        i / (self.stride as int)
    }

    /// Position of the byte at offset `i` within its pixel.
    pub open spec fn channel(self, i: int) -> int {
        (i % (self.stride as int)) % self.bpp()
    }

    /// Character cells per row of text. Pixels that do not fill a cell are
    /// left as margin.
    pub open spec fn cols(self) -> int {
        self.width as int / CHAR_WIDTH as int
    }

    /// Rows of text. Scanlines that do not fill a row are left as margin.
    pub open spec fn rows(self) -> int {
        self.height as int / CHAR_HEIGHT as int
    }
}

/// The `k`-th byte of pixel `(x, y)` lies inside the scanlines, belongs to
/// that pixel and to no other, and is its `k`-th channel.
pub proof fn lemma_pixel_location(g: Geometry, x: int, y: int, k: int)
    requires
        g.valid(),
        g.contains(x, y),
        0 <= k < g.bpp(),
    ensures
        g.covers(g.offset(x, y) + k),
        g.pixel_x(g.offset(x, y) + k) == x,
        g.pixel_y(g.offset(x, y) + k) == y,
        g.channel(g.offset(x, y) + k) == k,
        g.offset(x, y) + g.bpp() <= g.span(),
{
    let stride = g.stride as int;
    let width = g.width as int;
    let height = g.height as int;
    let bpp = g.bpp();
    let within = x * bpp + k;
    let i = g.offset(x, y) + k;
    assert(0 <= within && within + (bpp - k) <= width * bpp) by (nonlinear_arith)
        requires
            0 <= x < width,
            0 <= k < bpp,
            within == x * bpp + k,
    ;
    assert(y * stride + stride <= stride * height && 0 <= y * stride) by (nonlinear_arith)
        requires
            0 <= y < height,
            0 <= stride,
    ;
    lemma_fundamental_div_mod_converse(i, stride, y, within);
    lemma_fundamental_div_mod_converse(within, bpp, x, k);
}

/// A byte that belongs to a visible pixel is one of the bytes of the pixel
/// that `pixel_x`, `pixel_y` and `channel` name.
pub proof fn lemma_byte_location(g: Geometry, i: int)
    requires
        g.valid(),
        g.covers(i),
    ensures
        g.contains(g.pixel_x(i), g.pixel_y(i)),
        0 <= g.channel(i) < g.bpp(),
        i == g.offset(g.pixel_x(i), g.pixel_y(i)) + g.channel(i),
{
    let stride = g.stride as int;
    let width = g.width as int;
    let height = g.height as int;
    let bpp = g.bpp();
    let within = i % stride;
    let y = i / stride;
    let x = within / bpp;
    let k = within % bpp;
    assert(stride > 0) by (nonlinear_arith)
        requires
            width > 0,
            bpp > 0,
            width * bpp <= stride,
    ;
    lemma_fundamental_div_mod(i, stride);
    lemma_fundamental_div_mod(within, bpp);
    assert(0 <= within < stride);
    assert(0 <= y < height) by (nonlinear_arith)
        requires
            0 <= i < stride * height,
            i == stride * y + within,
            0 <= within < stride,
    ;
    assert(0 <= k < bpp);
    assert(0 <= x < width) by (nonlinear_arith)
        requires
            0 <= within < width * bpp,
            within == bpp * x + k,
            0 <= k < bpp,
    ;
    assert(i == y * stride + x * bpp + k) by (nonlinear_arith)
        requires
            i == stride * y + within,
            within == bpp * x + k,
    ;
}

/// The bytes of one pixel are exactly the bytes that `pixel_x` and `pixel_y`
/// attribute to it.
pub proof fn lemma_pixel_bytes(g: Geometry, x: int, y: int)
    requires
        g.valid(),
        g.contains(x, y),
    ensures
        forall|i: int|
            (g.offset(x, y) <= i < g.offset(x, y) + g.bpp()) <==> (#[trigger] g.covers(i)
                && g.pixel_x(i) == x && g.pixel_y(i) == y),
        forall|i: int|
            g.offset(x, y) <= i < g.offset(x, y) + g.bpp() ==> #[trigger] g.channel(i) == i
                - g.offset(x, y),
        0 <= g.offset(x, y),
        g.offset(x, y) + g.bpp() <= g.span(),
{
    let start = g.offset(x, y);
    lemma_pixel_location(g, x, y, 0);
    assert forall|i: int| (start <= i < start + g.bpp()) <==> (#[trigger] g.covers(i) && g.pixel_x(
        i,
    ) == x && g.pixel_y(i) == y) by {
        if start <= i < start + g.bpp() {
            lemma_pixel_location(g, x, y, i - start);
        }
        if g.covers(i) && g.pixel_x(i) == x && g.pixel_y(i) == y {
            lemma_byte_location(g, i);
        }
    }
    assert forall|i: int| start <= i < start + g.bpp() implies #[trigger] g.channel(i) == i
        - start by {
        lemma_pixel_location(g, x, y, i - start);
    }
}

} // verus!
