use vstd::prelude::*;

use image::imageops::FilterType;
use image::DynamicImage;
use refimage::DynamicImageOwned;

use crate::packet::{Packet, PacketKind, PacketModel};

verus! {

#[verifier::external_type_specification]
#[verifier::external_body]
pub struct ExDynamicImage(DynamicImage);

#[verifier::external_type_specification]
#[verifier::external_body]
pub struct ExDynamicImageOwned(DynamicImageOwned);

/// Width of every frame sent, in pixels.
pub const FRAME_WIDTH: u32 = 64;

/// Height of every frame sent, in pixels.
pub const FRAME_HEIGHT: u32 = 64;

/// Number of test images that frames are drawn from.
pub const ASSET_COUNT: u64 = 10;

/// Hue rotation added per frame, in degrees.
pub const HUE_STEP: u64 = 90;

/// Why a frame could not be produced.
#[derive(Clone, Copy, Debug, PartialEq, Eq, Structural)]
pub enum FrameError {
    LoadError,
}

/// Which test image the frame with number `counter` is drawn from.
pub fn asset_index(counter: u64) -> (r: u64)
    ensures
        r == counter % ASSET_COUNT,
        r < ASSET_COUNT,
{
    counter % ASSET_COUNT
}

/// The hue rotation, in degrees within `0..360`, applied to the frame with
/// number `counter`.
pub fn hue_shift(counter: u64) -> (r: i32)
    ensures
        r as int == (HUE_STEP * counter) % 360,
        0 <= r < 360,
{
    let q = counter % 4;
    assert((HUE_STEP * counter) % 360 == HUE_STEP * (counter % 4)) by (nonlinear_arith);
    (HUE_STEP * q) as i32
}

/// How the pixels of an image are laid out: one case for each variant of
/// `image::DynamicImage`.
#[derive(Clone, Copy, Debug, PartialEq, Eq, Structural)]
pub enum PixelLayout {
    Luma8,
    LumaA8,
    Rgb8,
    Rgba8,
    Luma16,
    LumaA16,
    Rgb16,
    Rgba16,
    Rgb32F,
    Rgba32F,
}

/// The variant of `image::DynamicImage` that holds `img`, as
/// `DynamicImage::color` reports it.
pub uninterp spec fn layout_of(img: DynamicImage) -> PixelLayout;

/// What `image::DynamicImage::width` returns.
pub uninterp spec fn width_of(img: DynamicImage) -> u32;

/// What `image::DynamicImage::height` returns.
pub uninterp spec fn height_of(img: DynamicImage) -> u32;

/// The length of what `refimage::DynamicImageOwned::as_raw_u8` returns.
pub uninterp spec fn owned_len(img: DynamicImageOwned) -> nat;

/// The layouts that refimage's conversion from `DynamicImage` accepts.
pub open spec fn refimage_holds(l: PixelLayout) -> bool {
    match l {
        PixelLayout::Luma8 | PixelLayout::Rgb8 | PixelLayout::Luma16 | PixelLayout::Rgb16
        | PixelLayout::Rgb32F => true,
        _ => false,
    }
}

/// Bytes that one pixel takes in a layout.
pub open spec fn bytes_per_pixel(l: PixelLayout) -> nat {
    match l {
        PixelLayout::Luma8 => 1,
        PixelLayout::LumaA8 => 2,
        PixelLayout::Rgb8 => 3,
        PixelLayout::Rgba8 => 4,
        PixelLayout::Luma16 => 2,
        PixelLayout::LumaA16 => 4,
        PixelLayout::Rgb16 => 6,
        PixelLayout::Rgba16 => 8,
        PixelLayout::Rgb32F => 12,
        PixelLayout::Rgba32F => 16,
    }
}

/// Relies on `image::DynamicImage::resize_exact`: a new image in the same
/// layout, of exactly `width` by `height` pixels. The triangle filter is the
/// one this library scales with.
#[verifier::external_body]
fn resize_to(img: &DynamicImage, width: u32, height: u32) -> (r: DynamicImage)
    ensures
        width_of(r) == width,
        height_of(r) == height,
        layout_of(r) == layout_of(*img),
{
    img.resize_exact(width, height, FilterType::Triangle)
}

/// Relies on `image::DynamicImage::to_rgb8`: a copy of the image, of the
/// same size, with 8-bit red, green and blue samples, held as the `ImageRgb8`
/// variant.
#[verifier::external_body]
fn to_rgb(img: &DynamicImage) -> (r: DynamicImage)
    ensures
        width_of(r) == width_of(*img),
        height_of(r) == height_of(*img),
        layout_of(r) == PixelLayout::Rgb8,
{
    DynamicImage::ImageRgb8(img.to_rgb8())
}

/// Relies on `image::DynamicImage::huerotate`: a new image of the same size
/// and layout, with the hue of each pixel turned by `degrees`.
#[verifier::external_body]
fn rotate_hue(img: &DynamicImage, degrees: i32) -> (r: DynamicImage)
    ensures
        width_of(r) == width_of(*img),
        height_of(r) == height_of(*img),
        layout_of(r) == layout_of(*img),
{
    img.huerotate(degrees)
}

/// Relies on refimage's `TryFrom<DynamicImage> for DynamicImageOwned`: for
/// an image of 1 to 65535 pixels each way, it succeeds exactly on the
/// layouts of `refimage_holds`, and keeps width times height pixels.
#[verifier::external_body]
fn to_owned_image(img: DynamicImage) -> (r: Option<DynamicImageOwned>)
    ensures
        1 <= width_of(img) <= 65535 && 1 <= height_of(img) <= 65535 ==> (r is Some
            <==> refimage_holds(layout_of(img))),
        1 <= width_of(img) <= 65535 && 1 <= height_of(img) <= 65535 ==> (r matches Some(o)
            ==> owned_len(o) == width_of(img) * height_of(img) * bytes_per_pixel(
            layout_of(img),
        )),
{
    DynamicImageOwned::try_from(img).ok()
}

/// Relies on `refimage::DynamicImageOwned::as_raw_u8`: the pixel data as
/// bytes.
#[verifier::external_body]
fn raw_bytes(img: &DynamicImageOwned) -> (r: Vec<u8>)
    ensures
        r@.len() == owned_len(*img),
{
    img.as_raw_u8().to_vec()
}

/// The pixels of frame number `counter`, drawn from `base`, the test image
/// that `asset_index(counter)` selects: scaled to the canonical size with the
/// triangle filter, converted to 8-bit RGB, its hue turned by
/// `hue_shift(counter)`, as raw bytes. Any image gives a frame: three bytes
/// for each of `FRAME_WIDTH` by `FRAME_HEIGHT` pixels.
pub fn render_frame(base: &DynamicImage, counter: u64) -> (r: Vec<u8>)
    ensures
        r@.len() == FRAME_WIDTH * FRAME_HEIGHT * 3,
{
    let sized = resize_to(base, FRAME_WIDTH, FRAME_HEIGHT);
    let rgb = to_rgb(&sized);
    let turned = rotate_hue(&rgb, hue_shift(counter));
    let owned = to_owned_image(turned);
    raw_bytes(&owned.unwrap())
}

/// The packet that answers for a frame: the frame's pixels in an `Image`
/// packet of the canonical size, or an `Acknowledge` when the frame could not
/// be produced.
pub fn frame_reply(frame: Result<Vec<u8>, FrameError>) -> (r: Packet)
    ensures
        frame matches Ok(b) ==> r@ == (PacketModel {
            kind: PacketKind::Image,
            sequence: 0,
            width: FRAME_WIDTH,
            height: FRAME_HEIGHT,
            payload: Some(b@),
        }),
        frame is Err ==> r@ == (PacketModel {
            kind: PacketKind::Acknowledge,
            sequence: 0,
            width: 0,
            height: 0,
            payload: None,
        }),
{
    match frame {
        Ok(pixels) => Packet::image(pixels, FRAME_WIDTH, FRAME_HEIGHT),
        Err(_) => Packet::acknowledge(),
    }
}

} // verus!
