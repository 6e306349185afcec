use gencam_server::frames::{asset_index, hue_shift, render_frame, ASSET_COUNT};
use image::{DynamicImage, ImageBuffer, Luma, Rgb, Rgba};

#[test]
fn asset_cycles_through_ten_images() {
    assert_eq!(ASSET_COUNT, 10);
    assert_eq!(asset_index(0), 0);
    assert_eq!(asset_index(1), 1);
    assert_eq!(asset_index(9), 9);
    assert_eq!(asset_index(10), 0);
    assert_eq!(asset_index(23), 3);
    assert_eq!(asset_index(u64::MAX), 5);
}

#[test]
fn hue_turns_a_quarter_per_frame() {
    assert_eq!(hue_shift(0), 0);
    assert_eq!(hue_shift(1), 90);
    assert_eq!(hue_shift(2), 180);
    assert_eq!(hue_shift(3), 270);
    assert_eq!(hue_shift(4), 0);
    assert_eq!(hue_shift(u64::MAX), 270);
}

#[test]
fn rgb_image_renders_canonical_frame() {
    let img = DynamicImage::ImageRgb8(ImageBuffer::from_pixel(10, 7, Rgb([200u8, 10, 10])));
    let bytes = render_frame(&img, 1);
    assert_eq!(bytes.len(), 64 * 64 * 3);
}

#[test]
fn luma16_image_renders_as_rgb() {
    let img = DynamicImage::ImageLuma16(ImageBuffer::from_pixel(128, 128, Luma([1000u16])));
    let bytes = render_frame(&img, 2);
    assert_eq!(bytes.len(), 64 * 64 * 3);
}

#[test]
fn hue_turn_changes_colour_frames() {
    let img = DynamicImage::ImageRgb8(ImageBuffer::from_pixel(64, 64, Rgb([200u8, 10, 10])));
    let a = render_frame(&img, 0);
    let b = render_frame(&img, 2);
    assert_ne!(a, b);
    assert_eq!(a, render_frame(&img, 4));
}

#[test]
fn alpha_image_renders_as_rgb() {
    let img = DynamicImage::ImageRgba8(ImageBuffer::from_pixel(300, 20, Rgba([1u8, 2, 3, 4])));
    let bytes = render_frame(&img, 1);
    assert_eq!(bytes.len(), 64 * 64 * 3);
}
