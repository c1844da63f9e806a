use utopia_kernel::constants::font::{ASCII_PRINTABLE_END, ASCII_PRINTABLE_START, FONT_CHAR_COUNT};
use utopia_kernel::constants::vga::{CHAR_HEIGHT, CHAR_WIDTH};
use utopia_kernel::font::{glyph_for, Glyph, FALLBACK_GLYPH, FONT};

#[test]
fn the_font_has_ninety_six_glyphs_of_sixteen_rows() {
    assert_eq!(FONT.len(), 96);
    assert_eq!(FONT.len(), FONT_CHAR_COUNT);
    assert_eq!(FONT[0].len(), CHAR_HEIGHT);
    assert_eq!(CHAR_WIDTH, 8);
    assert_eq!(ASCII_PRINTABLE_START, 32);
    assert_eq!(ASCII_PRINTABLE_END, 127);
    assert_eq!(FALLBACK_GLYPH, 95);
}

#[test]
fn printable_bytes_index_the_table_directly() {
    for byte in 32u8..127 {
        assert_eq!(glyph_for(byte), Glyph { rows: FONT[byte as usize - 32] });
    }
}

#[test]
fn lookup_is_stable_across_calls() {
    for byte in 0u8..=255 {
        assert_eq!(glyph_for(byte), glyph_for(byte));
    }
}

#[test]
fn bytes_without_a_glyph_get_the_placeholder_box() {
    let placeholder = Glyph { rows: FONT[95] };
    for byte in 0u8..32 {
        assert_eq!(glyph_for(byte), placeholder);
    }
    for byte in 127u8..=255 {
        assert_eq!(glyph_for(byte), placeholder);
    }
    assert_eq!(
        placeholder.rows,
        [
            0x00, 0x7c, 0x44, 0x44, 0x44, 0x44, 0x44, 0x44, 0x44, 0x44, 0x44, 0x44, 0x44, 0x44,
            0x7c, 0x00
        ]
    );
}

#[test]
fn capital_h_has_two_posts_and_a_bar() {
    assert_eq!(
        glyph_for(b'H').rows,
        [
            0x00, 0x44, 0x44, 0x44, 0x44, 0x44, 0x44, 0x7c, 0x7c, 0x44, 0x44, 0x44, 0x44, 0x44,
            0x44, 0x00
        ]
    );
}

#[test]
fn capital_i_has_a_post_and_two_serifs() {
    assert_eq!(
        glyph_for(b'I').rows,
        [
            0x00, 0x38, 0x38, 0x10, 0x10, 0x10, 0x10, 0x10, 0x10, 0x10, 0x10, 0x10, 0x10, 0x38,
            0x38, 0x00
        ]
    );
}

#[test]
fn the_space_is_blank() {
    assert_eq!(glyph_for(b' ').rows, [0u8; 16]);
}

#[test]
fn printable_glyphs_other_than_the_space_are_not_blank() {
    for byte in 33u8..127 {
        assert_ne!(glyph_for(byte).rows, [0u8; 16]);
    }
}

#[test]
fn the_leftmost_pixel_is_the_most_significant_bit() {
    let glyph = Glyph {
        rows: [0x80, 0x01, 0x40, 0, 0, 0, 0, 0, 0, 0, 0, 0, 0, 0, 0, 0xff],
    };
    assert!(glyph.is_set(0, 0));
    assert!(!glyph.is_set(1, 0));
    assert!(glyph.is_set(7, 1));
    assert!(!glyph.is_set(6, 1));
    assert!(glyph.is_set(1, 2));
    for x in 0..8 {
        assert!(glyph.is_set(x, 15));
        assert!(!glyph.is_set(x, 3));
    }
}

#[test]
fn no_pixel_is_set_outside_the_cell() {
    let glyph = Glyph { rows: [0xff; 16] };
    assert!(!glyph.is_set(8, 0));
    assert!(!glyph.is_set(0, 16));
    assert!(!glyph.is_set(usize::MAX, usize::MAX));
}
