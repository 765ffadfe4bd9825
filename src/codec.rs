//! The calls into the image decoding, metadata, colour extraction and
//! encoding crates. Each result that the library reasons about is a function
//! of the call's arguments alone, and is named here.

use vstd::prelude::*;
use image::ImageEncoder;
use immeta::formats::webp;

verus! {

/// The pixel layout of a decoded image.
#[derive(Debug, PartialEq, Eq, Structural)]
pub enum ColorKind {
    L8,
    La8,
    Rgb8,
    Rgba8,
    L16,
    La16,
    Rgb16,
    Rgba16,
    Rgb32F,
    Rgba32F,
    Other,
}

/// Width, height and MIME type that an image container declares.
#[derive(Debug)]
pub struct ImageMeta {
    pub width: u32,
    pub height: u32,
    pub mime: String,
}

/// The pixel layout that `image::load_from_memory` gives the bytes, or
/// `None` where it cannot decode them.
pub uninterp spec fn decoded_kind_of(bytes: Seq<u8>) -> Option<ColorKind>;

/// What `immeta::load_from_buf` reads from the bytes: width, height and
/// MIME type, or `None` where it does not recognise them or where they hold
/// a WebP image without a key frame, whose dimensions it does not give.
pub uninterp spec fn metadata_of(bytes: Seq<u8>) -> Option<(u32, u32, Seq<char>)>;

/// The flat channel sequence that `dominant_color::get_colors` extracts.
pub uninterp spec fn dominant_channels_of(bytes: Seq<u8>, has_alpha: bool) -> Seq<u8>;

/// The PNG file that image's `PngEncoder` writes for 8-bit RGB pixels, or
/// `None` where it refuses them.
pub uninterp spec fn png_rgb8_of(width: u32, height: u32, pixels: Seq<u8>) -> Option<Seq<u8>>;

/// The standard, padded base64 text of the bytes, as `base64::encode` writes it.
pub uninterp spec fn base64_of(bytes: Seq<u8>) -> Seq<char>;

/// Relies on `image::load_from_memory` and `DynamicImage::color`: decodes
/// the bytes and reports the pixel layout, variant for variant.
#[verifier::external_body]
pub(crate) fn decode_color_kind(bytes: &Vec<u8>) -> (r: Option<ColorKind>)
    ensures
        r == decoded_kind_of(bytes@),
{
    let img = image::load_from_memory(bytes).ok()?;
    Some(match img.color() {
        image::ColorType::L8 => ColorKind::L8,
        image::ColorType::La8 => ColorKind::La8,
        image::ColorType::Rgb8 => ColorKind::Rgb8,
        image::ColorType::Rgba8 => ColorKind::Rgba8,
        image::ColorType::L16 => ColorKind::L16,
        image::ColorType::La16 => ColorKind::La16,
        image::ColorType::Rgb16 => ColorKind::Rgb16,
        image::ColorType::Rgba16 => ColorKind::Rgba16,
        image::ColorType::Rgb32F => ColorKind::Rgb32F,
        image::ColorType::Rgba32F => ColorKind::Rgba32F,
        _ => ColorKind::Other,
    })
}

/// Relies on `immeta::load_from_buf`, with the dimensions and MIME type of
/// the metadata it returns. The dimensions of WebP metadata are read only
/// from a VP8 key frame: for any other WebP metadata
/// `GenericMetadata::dimensions` panics.
#[verifier::external_body]
pub(crate) fn load_metadata(bytes: &Vec<u8>) -> (r: Option<ImageMeta>)
    ensures
        match metadata_of(bytes@) {
            Some((w, h, m)) => r matches Some(meta) && meta.width == w && meta.height == h
                && meta.mime@ == m,
            None => r is None,
        },
{
    let meta = immeta::load_from_buf(bytes).ok()?;
    let dims = match &meta {
        immeta::GenericMetadata::Webp(webp::Metadata::VP8(webp::VP8Metadata {
            frame: webp::VP8Frame::Key { dimensions, .. },
            ..
        })) => *dimensions,
        immeta::GenericMetadata::Webp(_) => return None,
        other => other.dimensions(),
    };
    Some(ImageMeta { width: dims.width, height: dims.height, mime: meta.mime_type().to_string() })
}

/// Relies on `dominant_color::get_colors`, which returns one group of three
/// channels per colour, or four (the last one 255) where `has_alpha` is set.
#[verifier::external_body]
pub(crate) fn get_colors(bytes: &Vec<u8>, has_alpha: bool) -> (r: Vec<u8>)
    ensures
        r@ == dominant_channels_of(bytes@, has_alpha),
{
    dominant_color::get_colors(bytes, has_alpha)
}

/// Relies on `PngEncoder::write_image` of image, which needs exactly three
/// bytes per pixel, refuses a zero width or height, and otherwise writes the
/// file into the vector without error.
#[verifier::external_body]
pub(crate) fn encode_png_rgb8(width: u32, height: u32, pixels: &Vec<u8>) -> (r: Option<Vec<u8>>)
    requires
        pixels@.len() == 3 * width * height,
    ensures
        match png_rgb8_of(width, height, pixels@) {
            Some(p) => r matches Some(b) && b@ == p,
            None => r is None,
        },
        width == 0 || height == 0 ==> r is None,
        width > 0 && height > 0 ==> r is Some,
{
    let mut out: Vec<u8> = Vec::new();
    let encoder = image::codecs::png::PngEncoder::new(&mut out);
    encoder.write_image(pixels, width, height, image::ColorType::Rgb8).ok()?;
    Some(out)
}

/// Relies on `base64::encode`: the standard alphabet with padding.
#[verifier::external_body]
pub(crate) fn base64_encode(bytes: &Vec<u8>) -> (r: String)
    ensures
        r@ == base64_of(bytes@),
{
    base64::encode(bytes)
}

} // verus!
