use utopia_kernel::console::{Console, TextConsole};
use utopia_kernel::error::{KernelError, SafeWrite};
use utopia_kernel::font::glyph_for;
use utopia_kernel::geometry::FramebufferDescriptor;
use utopia_kernel::pixel::PixelFormat;
use utopia_kernel::surface::Surface;

const WHITE: [u8; 3] = [255, 255, 255];
const BLACK: [u8; 3] = [0, 0, 0];

fn memory_for(d: &FramebufferDescriptor, fill: u8) -> Vec<u8> {
    vec![fill; (d.stride_bytes * d.height as u64) as usize]
}

fn assert_cell_shows(console: &Console<'_>, col: usize, row: usize, byte: u8) {
    let glyph = glyph_for(byte);
    for y in 0..16 {
        for x in 0..8 {
            let expected = if glyph.is_set(x, y) { WHITE.to_vec() } else { BLACK.to_vec() };
            assert_eq!(console.read_pixel(col * 8 + x, row * 16 + y), Some(expected));
        }
    }
}

fn assert_screen_is_blank(console: &Console<'_>, width: usize, height: usize) {
    for y in 0..height {
        for x in 0..width {
            assert_eq!(console.read_pixel(x, y), Some(BLACK.to_vec()));
        }
    }
}

#[test]
fn new_console_is_not_ready() {
    let console = Console::new();
    assert!(!console.is_ready());
    assert_eq!(console.cursor(), None);
    assert_eq!(console.size(), None);
    assert_eq!(console.read_pixel(0, 0), None);
}

#[test]
fn write_before_initialization_is_unavailable() {
    let mut console = Console::new();
    assert_eq!(console.write(b"early"), Err(KernelError::FrameBufferUnavailable));
    assert_eq!(console.safe_write_str("early"), Err(KernelError::FrameBufferUnavailable));
    assert_eq!(
        console.write_rendered(Ok(String::from("early"))),
        Err(KernelError::FrameBufferUnavailable)
    );
    assert_eq!(
        console.write_rendered(Err(core::fmt::Error)),
        Err(KernelError::FrameBufferUnavailable)
    );
    console.write_best_effort(b"early");
    assert!(!console.is_ready());
}

#[test]
fn initialization_without_descriptor_is_unavailable() {
    let mut memory = vec![0u8; 1024];
    let mut console = Console::new();
    assert_eq!(
        console.initialize(None, &mut memory[..]),
        Err(KernelError::FrameBufferUnavailable)
    );
    assert!(!console.is_ready());
}

#[test]
fn initialization_with_zero_width_or_height_is_unavailable() {
    let mut first = vec![0u8; 1024];
    let mut second = vec![0u8; 1024];
    let mut console = Console::new();
    let no_width = FramebufferDescriptor {
        width: 0,
        height: 16,
        stride_bytes: 24,
        pixel_format: PixelFormat::Rgb8,
    };
    let no_height = FramebufferDescriptor {
        width: 8,
        height: 0,
        stride_bytes: 24,
        pixel_format: PixelFormat::Rgb8,
    };
    assert_eq!(
        console.initialize(Some(no_width), &mut first[..]),
        Err(KernelError::FrameBufferUnavailable)
    );
    assert_eq!(
        console.initialize(Some(no_height), &mut second[..]),
        Err(KernelError::FrameBufferUnavailable)
    );
    assert!(!console.is_ready());
}

#[test]
fn initialization_with_less_than_one_cell_is_unavailable() {
    let narrow = FramebufferDescriptor::new(7, 16, PixelFormat::Rgb8);
    let short = FramebufferDescriptor::new(8, 15, PixelFormat::Rgb8);
    let mut first = memory_for(&narrow, 0);
    let mut second = memory_for(&short, 0);
    let mut console = Console::new();
    assert_eq!(
        console.initialize(Some(narrow), &mut first[..]),
        Err(KernelError::FrameBufferUnavailable)
    );
    assert_eq!(
        console.initialize(Some(short), &mut second[..]),
        Err(KernelError::FrameBufferUnavailable)
    );
    assert!(!console.is_ready());
}

#[test]
fn failed_initialization_can_be_followed_by_a_good_one() {
    let d = FramebufferDescriptor::new(16, 16, PixelFormat::Rgb8);
    let mut small = vec![0u8; 10];
    let mut memory = memory_for(&d, 0);
    let mut console = Console::new();
    assert_eq!(
        console.initialize(Some(d), &mut small[..]),
        Err(KernelError::FrameBufferUnavailable)
    );
    assert_eq!(console.initialize(Some(d), &mut memory[..]), Ok(()));
    assert!(console.is_ready());
}

#[test]
fn initialization_clears_the_screen_and_homes_the_cursor() {
    let d = FramebufferDescriptor {
        width: 20,
        height: 35,
        stride_bytes: 64,
        pixel_format: PixelFormat::Rgb8,
    };
    let mut memory = memory_for(&d, 0xaa);
    {
        let mut console = Console::new();
        assert_eq!(console.initialize(Some(d), &mut memory[..]), Ok(()));
        assert!(console.is_ready());
        assert_eq!(console.cursor(), Some((0, 0)));
        assert_eq!(console.size(), Some((2, 2)));
        assert_screen_is_blank(&console, 20, 35);
        assert_eq!(console.read_pixel(20, 0), None);
        assert_eq!(console.read_pixel(0, 35), None);
    }
    for y in 0..35 {
        for pad in 60..64 {
            assert_eq!(memory[y * 64 + pad], 0xaa);
        }
    }
}

#[test]
fn second_initialization_is_refused_and_changes_nothing() {
    let d = FramebufferDescriptor::new(32, 32, PixelFormat::Rgb8);
    let mut memory = memory_for(&d, 0);
    let mut other = memory_for(&d, 0x55);
    let mut console = Console::new();
    assert_eq!(console.initialize(Some(d), &mut memory[..]), Ok(()));
    assert_eq!(console.write(b"ab\nc"), Ok(()));
    let mut before = Vec::new();
    for y in 0..32 {
        for x in 0..32 {
            before.push(console.read_pixel(x, y));
        }
    }
    assert_eq!(
        console.initialize(Some(d), &mut other[..]),
        Err(KernelError::HardwareError)
    );
    assert!(console.is_ready());
    assert_eq!(console.cursor(), Some((1, 1)));
    assert_eq!(console.size(), Some((4, 2)));
    for y in 0..32 {
        for x in 0..32 {
            assert_eq!(console.read_pixel(x, y), before[y * 32 + x]);
        }
    }
    assert_cell_shows(&console, 0, 0, b'a');
    assert_cell_shows(&console, 1, 0, b'b');
    assert_cell_shows(&console, 0, 1, b'c');
}

#[test]
fn second_initialization_is_refused_even_without_a_descriptor() {
    let d = FramebufferDescriptor::new(8, 16, PixelFormat::Rgb8);
    let mut memory = memory_for(&d, 0);
    let mut other = vec![0u8; 4];
    let mut console = Console::new();
    assert_eq!(console.initialize(Some(d), &mut memory[..]), Ok(()));
    assert_eq!(console.initialize(None, &mut other[..]), Err(KernelError::HardwareError));
}

#[test]
fn vga_sized_screen_has_eighty_columns_and_thirty_rows() {
    let d = FramebufferDescriptor::new(640, 480, PixelFormat::Rgb8);
    let mut memory = memory_for(&d, 0);
    let mut console = Console::new();
    assert_eq!(console.initialize(Some(d), &mut memory[..]), Ok(()));
    assert_eq!(console.size(), Some((80, 30)));
}

#[test]
fn writing_hi_and_a_line_feed_draws_two_glyphs_and_moves_to_the_next_row() {
    let d = FramebufferDescriptor::new(640, 480, PixelFormat::Rgb8);
    let mut memory = memory_for(&d, 0);
    let mut console = Console::new();
    assert_eq!(console.initialize(Some(d), &mut memory[..]), Ok(()));
    assert_eq!(console.write(b"HI\n"), Ok(()));
    assert_cell_shows(&console, 0, 0, b'H');
    assert_cell_shows(&console, 1, 0, b'I');
    assert_cell_shows(&console, 2, 0, b' ');
    assert_eq!(console.read_pixel(1, 1), Some(WHITE.to_vec()));
    assert_eq!(console.read_pixel(0, 0), Some(BLACK.to_vec()));
    assert_eq!(console.read_pixel(8 + 3, 3), Some(WHITE.to_vec()));
    assert_eq!(console.cursor(), Some((1, 0)));
}

#[test]
fn byte_outside_the_printable_range_draws_the_placeholder_and_advances() {
    let d = FramebufferDescriptor::new(64, 32, PixelFormat::Rgb8);
    let mut memory = memory_for(&d, 0);
    let mut console = Console::new();
    assert_eq!(console.initialize(Some(d), &mut memory[..]), Ok(()));
    assert_eq!(console.write(&[200]), Ok(()));
    assert_eq!(console.cursor(), Some((0, 1)));
    assert_cell_shows(&console, 0, 0, 200);
    assert_eq!(console.read_pixel(1, 1), Some(WHITE.to_vec()));
    assert_eq!(console.read_pixel(2, 2), Some(BLACK.to_vec()));
    assert_eq!(console.read_pixel(5, 14), Some(WHITE.to_vec()));
    assert_eq!(console.write(&[0, 9, 127, 255]), Ok(()));
    assert_eq!(console.cursor(), Some((0, 5)));
    for col in 1..5 {
        assert_cell_shows(&console, col, 0, 200);
    }
}

#[test]
fn text_shorter_than_a_row_stays_on_the_row() {
    let d = FramebufferDescriptor::new(80, 48, PixelFormat::Rgb8);
    let mut memory = memory_for(&d, 0);
    let mut console = Console::new();
    assert_eq!(console.initialize(Some(d), &mut memory[..]), Ok(()));
    assert_eq!(console.size(), Some((10, 3)));
    assert_eq!(console.write(b"\n"), Ok(()));
    assert_eq!(console.write(b"kernel"), Ok(()));
    assert_eq!(console.cursor(), Some((1, 6)));
    assert_eq!(console.write(b"ok!"), Ok(()));
    assert_eq!(console.cursor(), Some((1, 9)));
    assert_eq!(console.write(b""), Ok(()));
    assert_eq!(console.cursor(), Some((1, 9)));
}

#[test]
fn carriage_returns_ahead_of_the_text_do_not_count() {
    let d = FramebufferDescriptor::new(80, 48, PixelFormat::Rgb8);
    let mut memory = memory_for(&d, 0);
    let mut console = Console::new();
    assert_eq!(console.initialize(Some(d), &mut memory[..]), Ok(()));
    assert_eq!(console.write(b"\r\rabc"), Ok(()));
    assert_eq!(console.cursor(), Some((0, 3)));
}

#[test]
fn carriage_return_goes_back_to_the_first_column_of_the_same_row() {
    let d = FramebufferDescriptor::new(80, 48, PixelFormat::Rgb8);
    let mut memory = memory_for(&d, 0);
    let mut console = Console::new();
    assert_eq!(console.initialize(Some(d), &mut memory[..]), Ok(()));
    assert_eq!(console.write(b"\nabc\r"), Ok(()));
    assert_eq!(console.cursor(), Some((1, 0)));
    assert_eq!(console.write(b"X"), Ok(()));
    assert_eq!(console.cursor(), Some((1, 1)));
    assert_cell_shows(&console, 0, 1, b'X');
    assert_cell_shows(&console, 1, 1, b'b');
    assert_cell_shows(&console, 2, 1, b'c');
}

#[test]
fn a_full_row_of_text_wraps_to_the_start_of_the_next_row() {
    let d = FramebufferDescriptor::new(80, 48, PixelFormat::Rgb8);
    let mut memory = memory_for(&d, 0);
    let mut console = Console::new();
    assert_eq!(console.initialize(Some(d), &mut memory[..]), Ok(()));
    assert_eq!(console.write(b"0123456789"), Ok(()));
    assert_eq!(console.cursor(), Some((1, 0)));
    for (col, byte) in b"0123456789".iter().enumerate() {
        assert_cell_shows(&console, col, 0, *byte);
    }
    assert_eq!(console.write(b"abcdefghijk"), Ok(()));
    assert_eq!(console.cursor(), Some((2, 1)));
    assert_cell_shows(&console, 9, 1, b'j');
    assert_cell_shows(&console, 0, 2, b'k');
}

#[test]
fn a_full_last_row_scrolls_the_screen() {
    let d = FramebufferDescriptor::new(32, 32, PixelFormat::Rgb8);
    let mut memory = memory_for(&d, 0);
    let mut console = Console::new();
    assert_eq!(console.initialize(Some(d), &mut memory[..]), Ok(()));
    assert_eq!(console.write(b"top\nWXY"), Ok(()));
    assert_eq!(console.cursor(), Some((1, 3)));
    assert_cell_shows(&console, 0, 0, b't');
    assert_eq!(console.write(b"Z"), Ok(()));
    assert_eq!(console.cursor(), Some((0, 0)));
    assert_screen_is_blank(&console, 32, 32);
}

#[test]
fn as_many_line_feeds_as_rows_scroll_exactly_once() {
    let d = FramebufferDescriptor::new(32, 64, PixelFormat::Rgb8);
    let mut memory = memory_for(&d, 0);
    let mut console = Console::new();
    assert_eq!(console.initialize(Some(d), &mut memory[..]), Ok(()));
    assert_eq!(console.size(), Some((4, 4)));
    assert_eq!(console.write(b"ab"), Ok(()));
    let mut rows_seen = Vec::new();
    for _ in 0..4 {
        assert_eq!(console.write(b"\n"), Ok(()));
        rows_seen.push(console.cursor().unwrap().0);
        if rows_seen.len() < 4 {
            assert_cell_shows(&console, 0, 0, b'a');
            assert_cell_shows(&console, 1, 0, b'b');
        }
    }
    assert_eq!(rows_seen, vec![1, 2, 3, 0]);
    assert_eq!(console.cursor(), Some((0, 0)));
    assert_screen_is_blank(&console, 32, 64);
}

#[test]
fn margin_pixels_are_never_drawn_on_by_text() {
    let d = FramebufferDescriptor::new(20, 20, PixelFormat::U8Grayscale);
    let mut memory = memory_for(&d, 0);
    let mut console = Console::new();
    assert_eq!(console.initialize(Some(d), &mut memory[..]), Ok(()));
    assert_eq!(console.size(), Some((2, 1)));
    assert_eq!(console.write(b"#"), Ok(()));
    assert_eq!(console.cursor(), Some((0, 1)));
    for y in 0..20 {
        for x in 16..20 {
            assert_eq!(console.read_pixel(x, y), Some(vec![0]));
        }
    }
    for y in 16..20 {
        for x in 0..20 {
            assert_eq!(console.read_pixel(x, y), Some(vec![0]));
        }
    }
    let glyph = glyph_for(b'#');
    for y in 0..16 {
        for x in 0..8 {
            let expected = if glyph.is_set(x, y) { 255 } else { 0 };
            assert_eq!(console.read_pixel(x, y), Some(vec![expected]));
        }
    }
}

#[test]
fn text_is_drawn_in_the_layout_of_the_display() {
    let d = FramebufferDescriptor::new(16, 16, PixelFormat::Unknown);
    let mut memory = memory_for(&d, 0x33);
    {
        let mut console = Console::new();
        assert_eq!(console.initialize(Some(d), &mut memory[..]), Ok(()));
        console.write_best_effort(b"!");
        assert_eq!(console.cursor(), Some((0, 1)));
    }
    let glyph = glyph_for(b'!');
    for y in 0..16 {
        for x in 0..8 {
            let at = (y * 16 + x) * 4;
            let expected = if glyph.is_set(x, y) { [255, 255, 255, 0] } else { [0, 0, 0, 0] };
            assert_eq!(memory[at..at + 4], expected);
            assert_eq!(memory[at + 32..at + 36], [0, 0, 0, 0]);
        }
    }
}

#[test]
fn a_screen_of_one_cell_scrolls_on_every_glyph() {
    let d = FramebufferDescriptor::new(8, 16, PixelFormat::Rgb8);
    let mut memory = memory_for(&d, 0x33);
    let mut console = Console::new();
    assert_eq!(console.initialize(Some(d), &mut memory[..]), Ok(()));
    assert_eq!(console.size(), Some((1, 1)));
    assert_eq!(console.write(b"!"), Ok(()));
    assert_eq!(console.cursor(), Some((0, 0)));
    assert_screen_is_blank(&console, 8, 16);
    assert_eq!(console.write(b"\r"), Ok(()));
    assert_eq!(console.cursor(), Some((0, 0)));
    assert_eq!(console.write(b"\n"), Ok(()));
    assert_eq!(console.cursor(), Some((0, 0)));
}

#[test]
fn safe_write_str_writes_the_bytes_of_the_string() {
    let d = FramebufferDescriptor::new(80, 32, PixelFormat::Bgr8);
    let mut memory = memory_for(&d, 0);
    let mut console = Console::new();
    assert_eq!(console.initialize(Some(d), &mut memory[..]), Ok(()));
    assert_eq!(console.safe_write_str("ok\n\u{e9}"), Ok(()));
    assert_eq!(console.cursor(), Some((1, 2)));
    assert_cell_shows(&console, 0, 0, b'o');
    assert_cell_shows(&console, 1, 0, b'k');
    assert_cell_shows(&console, 0, 1, 0xc3);
    assert_cell_shows(&console, 1, 1, 0xa9);
}

#[test]
fn rendered_text_is_written_and_a_formatting_failure_is_a_failed_write() {
    let d = FramebufferDescriptor::new(80, 32, PixelFormat::Rgb8);
    let mut memory = memory_for(&d, 0);
    let mut console = Console::new();
    assert_eq!(console.initialize(Some(d), &mut memory[..]), Ok(()));
    assert_eq!(console.write_rendered(Ok(format!("n={}", 42))), Ok(()));
    assert_eq!(console.cursor(), Some((0, 4)));
    assert_cell_shows(&console, 2, 0, b'4');
    assert_eq!(console.write_rendered(Err(core::fmt::Error)), Err(KernelError::WriteFailed));
    assert_eq!(console.cursor(), Some((0, 4)));
    assert_cell_shows(&console, 4, 0, b' ');
}

#[test]
fn text_console_reports_its_grid_and_cursor() {
    let d = FramebufferDescriptor::new(24, 48, PixelFormat::Rgb8);
    let mut memory = memory_for(&d, 1);
    let surface = Surface::initialize(Some(d), &mut memory[..]).unwrap();
    let mut console = TextConsole::new(surface).unwrap();
    assert_eq!((console.cols(), console.rows()), (3, 3));
    assert_eq!((console.cursor_row(), console.cursor_col()), (0, 0));
    assert_eq!(console.geometry().width, 24);
    console.write_byte(b'a');
    console.write_byte(b'\n');
    console.write(b"bc");
    assert_eq!((console.cursor_row(), console.cursor_col()), (1, 2));
    assert_eq!(console.read_pixel(23, 47), Some(vec![0, 0, 0]));
    assert_eq!(console.read_pixel(24, 47), None);
}

#[test]
fn text_console_needs_room_for_one_cell() {
    let d = FramebufferDescriptor::new(100, 15, PixelFormat::Rgb8);
    let mut memory = memory_for(&d, 1);
    let surface = Surface::initialize(Some(d), &mut memory[..]).unwrap();
    assert_eq!(TextConsole::new(surface).err(), Some(KernelError::FrameBufferUnavailable));
}
