use utopia_kernel::constants::vga::{BACKGROUND_COLOR, FOREGROUND_COLOR};
use utopia_kernel::pixel::{background, encode, foreground, Color, PixelFormat};

#[test]
fn trivial_assertion() {
    assert_eq!(1, 1);
}

#[test]
fn packed_colour_is_unpacked_channel_by_channel() {
    let color = Color::from_rgb24(0x0012_34ab);
    assert_eq!(color, Color { red: 0x12, green: 0x34, blue: 0xab });
}

#[test]
fn top_byte_of_a_packed_colour_is_ignored() {
    assert_eq!(Color::from_rgb24(0xff01_0203), Color { red: 1, green: 2, blue: 3 });
}

#[test]
fn foreground_is_white_and_background_is_black() {
    assert_eq!(foreground(), Color { red: 255, green: 255, blue: 255 });
    assert_eq!(background(), Color { red: 0, green: 0, blue: 0 });
    assert_eq!(foreground(), Color::from_rgb24(FOREGROUND_COLOR));
    assert_eq!(background(), Color::from_rgb24(BACKGROUND_COLOR));
}

#[test]
fn luminance_is_the_mean_of_the_channels_rounded_down() {
    assert_eq!(Color { red: 10, green: 20, blue: 31 }.luminance(), 20);
    assert_eq!(Color { red: 255, green: 255, blue: 255 }.luminance(), 255);
    assert_eq!(Color { red: 0, green: 0, blue: 0 }.luminance(), 0);
    assert_eq!(Color { red: 255, green: 0, blue: 0 }.luminance(), 85);
}

#[test]
fn bytes_per_pixel_follows_the_format() {
    assert_eq!(PixelFormat::Rgb8.bytes_per_pixel(), 3);
    assert_eq!(PixelFormat::Bgr8.bytes_per_pixel(), 3);
    assert_eq!(PixelFormat::U8Grayscale.bytes_per_pixel(), 1);
    assert_eq!(PixelFormat::Unknown.bytes_per_pixel(), 4);
}

#[test]
fn rgb_is_encoded_red_first() {
    let color = Color { red: 1, green: 2, blue: 3 };
    assert_eq!(encode(color, PixelFormat::Rgb8).to_vec(), vec![1, 2, 3]);
}

#[test]
fn bgr_is_encoded_blue_first() {
    let color = Color { red: 1, green: 2, blue: 3 };
    assert_eq!(encode(color, PixelFormat::Bgr8).to_vec(), vec![3, 2, 1]);
}

#[test]
fn grayscale_is_encoded_as_one_byte_of_luminance() {
    let color = Color { red: 30, green: 60, blue: 90 };
    assert_eq!(encode(color, PixelFormat::U8Grayscale).to_vec(), vec![60]);
}

#[test]
fn unknown_format_is_encoded_in_rgb_order_with_a_zero_behind() {
    let color = Color { red: 1, green: 2, blue: 3 };
    assert_eq!(encode(color, PixelFormat::Unknown).to_vec(), vec![1, 2, 3, 0]);
}

#[test]
fn encoded_pixel_is_as_long_as_the_format_says() {
    let color = Color { red: 9, green: 8, blue: 7 };
    let formats = [
        PixelFormat::Rgb8,
        PixelFormat::Bgr8,
        PixelFormat::U8Grayscale,
        PixelFormat::Unknown,
    ];
    for format in formats {
        let pixel = encode(color, format);
        assert_eq!(pixel.len(), format.bytes_per_pixel());
        assert_eq!(pixel.to_vec().len(), format.bytes_per_pixel());
        for index in 0..pixel.len() {
            assert_eq!(pixel.byte(index), pixel.to_vec()[index]);
        }
    }
}

#[test]
fn encoding_is_the_same_every_time() {
    let color = Color { red: 200, green: 100, blue: 50 };
    assert_eq!(
        encode(color, PixelFormat::Bgr8).to_vec(),
        encode(color, PixelFormat::Bgr8).to_vec()
    );
}
