//! Colours and their byte layout in the framebuffer.
//!
//! A [`Color`] is the canonical 24-bit value the rest of the kernel thinks
//! in. A [`PixelFormat`] names the layout the display wants. [`encode`] turns
//! the one into the bytes of the other; it is total, because a kernel that
//! refuses to draw text during boot is worse off than one that draws it in
//! the wrong colour.

use vstd::prelude::*;
use crate::constants::vga::{BACKGROUND_COLOR, FOREGROUND_COLOR};

verus! {

/// A colour as eight bits each of red, green and blue.
#[derive(Debug, Clone, Copy, PartialEq, Eq, Structural)]
pub struct Color {
    /// The red channel.
    pub red: u8,
    /// The green channel.
    pub green: u8,
    /// The blue channel.
    pub blue: u8,
}

impl Color {
    /// The colour that a packed `0x00RRGGBB` value stands for. The top eight
    /// bits are ignored.
    pub open spec fn of_rgb24(value: u32) -> Color {
        Color {
            red: ((value / 0x1_0000) % 0x100) as u8,
            green: ((value / 0x100) % 0x100) as u8,
            blue: (value % 0x100) as u8,
        }
    }

    /// Brightness of the colour on a single-channel display: the mean of the
    /// three channels, rounded down.
    pub open spec fn spec_luminance(self) -> u8 {
        ((self.red + self.green + self.blue) / 3) as u8
    }

    /// Unpacks a `0x00RRGGBB` value.
    pub fn from_rgb24(value: u32) -> (color: Color)
        ensures
            color == Color::of_rgb24(value),
    {
        let red: u32 = (value >> 16) & 0xff;
        let green: u32 = (value >> 8) & 0xff;
        let blue: u32 = value & 0xff;
        assert(red == (value / 0x1_0000) % 0x100 && green == (value / 0x100) % 0x100 && blue
            == value % 0x100) by (bit_vector)
            requires
                red == (value >> 16) & 0xff,
                green == (value >> 8) & 0xff,
                blue == value & 0xff,
        ;
        Color { red: red as u8, green: green as u8, blue: blue as u8 }
    }

    /// Brightness of the colour on a single-channel display.
    #[verifier::when_used_as_spec(spec_luminance)]
    pub fn luminance(self) -> (level: u8)
        ensures
            level == self.spec_luminance(),
        no_unwind
    {
        let sum: u16 = self.red as u16 + self.green as u16 + self.blue as u16;
        (sum / 3) as u8
    }
}

/// The colour of the set bits of a glyph.
pub open spec fn foreground_color() -> Color {
    Color { red: 0xff, green: 0xff, blue: 0xff }
}

/// The colour of the clear bits of a glyph, and of an empty screen.
pub open spec fn background_color() -> Color {
    Color { red: 0, green: 0, blue: 0 }
}

/// The console's text colour.
pub fn foreground() -> (color: Color)
    ensures
        color == foreground_color(),
{
    Color::from_rgb24(FOREGROUND_COLOR)
}

/// The console's paper colour.
pub fn background() -> (color: Color)
    ensures
        color == background_color(),
{
    Color::from_rgb24(BACKGROUND_COLOR)
}

/// Byte layout of one pixel, as the bootloader reports it.
#[derive(Debug, Clone, Copy, PartialEq, Eq, Structural)]
pub enum PixelFormat {
    /// One byte each of red, green, blue, in that order.
    Rgb8,
    /// One byte each of blue, green, red, in that order.
    Bgr8,
    /// One byte of brightness.
    U8Grayscale,
    /// A layout the bootloader could not name. Such a pixel is taken to be
    /// four bytes wide and is written in red, green, blue order with a zero
    /// byte behind.
    Unknown,
}

impl PixelFormat {
    /// Number of bytes one pixel occupies.
    pub open spec fn spec_bytes_per_pixel(self) -> usize {
        match self {
            PixelFormat::Rgb8 => 3,
            PixelFormat::Bgr8 => 3,
            PixelFormat::U8Grayscale => 1,
            PixelFormat::Unknown => 4,
        }
    }

    /// Number of bytes one pixel occupies: between one and four.
    #[verifier::when_used_as_spec(spec_bytes_per_pixel)]
    pub fn bytes_per_pixel(self) -> (count: usize)
        ensures
            count == self.spec_bytes_per_pixel(),
            1 <= count <= 4,
        no_unwind
    {
        match self {
            PixelFormat::Rgb8 => 3,
            PixelFormat::Bgr8 => 3,
            PixelFormat::U8Grayscale => 1,
            PixelFormat::Unknown => 4,
        }
    }
}

/// The bytes that stand for `color` on a display of the given `format`.
pub open spec fn encoded(color: Color, format: PixelFormat) -> Seq<u8> {
    match format {
        PixelFormat::Rgb8 => seq![color.red, color.green, color.blue],
        PixelFormat::Bgr8 => seq![color.blue, color.green, color.red],
        PixelFormat::U8Grayscale => seq![color.spec_luminance()],
        PixelFormat::Unknown => seq![color.red, color.green, color.blue, 0u8],
    }
}

/// An encoded colour covers exactly one pixel.
pub proof fn lemma_encoded_len(color: Color, format: PixelFormat)
    ensures
        encoded(color, format).len() == format.spec_bytes_per_pixel(),
{
}

/// The bytes of one pixel, ready to be stored.
#[derive(Debug, Clone, Copy)]
pub struct EncodedPixel {
    bytes: [u8; 4],
    len: usize,
}

impl EncodedPixel {
    /// A pixel is between one and four bytes wide.
    #[verifier::type_invariant]
    spec fn well_formed(self) -> bool {
        1 <= self.len <= 4
    }

    /// The bytes, first in memory first.
    pub closed spec fn view(&self) -> Seq<u8> {
        self.bytes@.subrange(0, self.len as int)
    }

    /// Number of bytes.
    pub fn len(&self) -> (count: usize)
        ensures
            count == self@.len(),
            1 <= count <= 4,
        no_unwind
    {
        proof {
            use_type_invariant(self);
        }
        self.len
    }

    /// The byte at `index`.
    pub fn byte(&self, index: usize) -> (value: u8)
        requires
            index < self@.len(),
        ensures
            value == self@[index as int],
        no_unwind
    {
        proof {
            use_type_invariant(self);
        }
        self.bytes[index]
    }

    /// The bytes as a vector, first in memory first.
    pub fn to_vec(&self) -> (bytes: Vec<u8>)
        ensures
            bytes@ == self@,
    {
        proof {
            use_type_invariant(self);
        }
        let mut bytes: Vec<u8> = Vec::new();
        let mut index: usize = 0;
        while index < self.len
            invariant
                index <= self.len <= 4,
                bytes@ == self.bytes@.subrange(0, index as int),
            decreases self.len - index,
        {
            bytes.push(self.bytes[index]);
            index += 1;
        }
        bytes
    }
}

/// Encodes `color` for a display of the given `format`.
pub fn encode(color: Color, format: PixelFormat) -> (pixel: EncodedPixel)
    ensures
        pixel@ == encoded(color, format),
        pixel@.len() == format.spec_bytes_per_pixel(),
    no_unwind
{
    let pixel = match format {
        PixelFormat::Rgb8 => EncodedPixel { bytes: [color.red, color.green, color.blue, 0], len: 3 },
        PixelFormat::Bgr8 => EncodedPixel { bytes: [color.blue, color.green, color.red, 0], len: 3 },
        PixelFormat::U8Grayscale => EncodedPixel { bytes: [color.luminance(), 0, 0, 0], len: 1 },
        PixelFormat::Unknown => EncodedPixel { bytes: [color.red, color.green, color.blue, 0], len: 4 },
    };
    assert(pixel@ =~= encoded(color, format));
    pixel
}

} // verus!
