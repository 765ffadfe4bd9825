//! A thumbnail filled with one colour, encoded as PNG and then as base64.

use vstd::prelude::*;
use crate::codec::{base64_encode, base64_of, encode_png_rgb8, png_rgb8_of};
use crate::color::RgbColor;

verus! {

/// The channel of `color` that byte `i` of a row-major 8-bit RGB buffer holds.
pub open spec fn channel_at(color: RgbColor<u8>, i: int) -> u8 {
    if i % 3 == 0 {
        color.r
    } else if i % 3 == 1 {
        color.g
    } else {
        color.b
    }
}

/// The 8-bit RGB pixels of a `width` x `height` image in which every pixel
/// is `color`.
pub open spec fn solid_pixels(width: nat, height: nat, color: RgbColor<u8>) -> Seq<u8> {
    Seq::new(3 * width * height, |i: int| channel_at(color, i))
}

/// What `create_solid_color_image` returns: the base64 text of the PNG file
/// of the solid image (the encoder accepts every image of positive size).
pub open spec fn solid_image_text(width: u32, height: u32, color: RgbColor<u8>) -> Seq<char> {
    match png_rgb8_of(width, height, solid_pixels(width as nat, height as nat, color)) {
        Some(png) => base64_of(png),
        None => Seq::empty(),
    }
}

/// Fills a `width` x `height` 8-bit RGB buffer with `color`.
pub fn solid_color_pixels(width: u32, height: u32, color: &RgbColor<u8>) -> (r: Vec<u8>)
    requires
        3 * width * height <= usize::MAX,
    ensures
        r@ == solid_pixels(width as nat, height as nat, *color),
{
    let ghost target = solid_pixels(width as nat, height as nat, *color);
    assert((width as usize) * (height as usize) <= 3 * width * height) by (nonlinear_arith);
    assert((width as usize) * (height as usize) * 3 == 3 * width * height) by (nonlinear_arith);
    let n: usize = (width as usize) * (height as usize) * 3;
    let mut out: Vec<u8> = Vec::new();
    let mut i: usize = 0;
    while i < n
        invariant
            n == target.len(),
            i <= n,
            out@ =~= target.take(i as int),
            target == solid_pixels(width as nat, height as nat, *color),
        decreases n - i,
    {
        let v: u8 = if i % 3 == 0 {
            color.r
        } else if i % 3 == 1 {
            color.g
        } else {
            color.b
        };
        out.push(v);
        i = i + 1;
    }
    assert(out@ =~= target);
    out
}

/// A PNG image of `width` x `height` pixels that all have `color`, as base64
/// text. An image of zero width or height has no PNG form, so both sizes
/// must be positive.
pub fn create_solid_color_image(width: u32, height: u32, color: &RgbColor<u8>) -> (r: String)
    requires
        width > 0,
        height > 0,
        3 * width * height <= usize::MAX,
    ensures
        png_rgb8_of(width, height, solid_pixels(width as nat, height as nat, *color)) is Some,
        r@ == solid_image_text(width, height, *color),
{
    let pixels = solid_color_pixels(width, height, color);
    match encode_png_rgb8(width, height, &pixels) {
        Some(png) => base64_encode(&png),
        // not taken: the encoder accepts every image of positive size
        None => String::new(),
    }
}

} // verus!
