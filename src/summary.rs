//! The whole analysis of an encoded image: its dominant colours, its
//! dimensions, and a solid-colour thumbnail of a given width.

use vstd::prelude::*;
use crate::codec::{
    decode_color_kind,
    decoded_kind_of,
    dominant_channels_of,
    get_colors,
    load_metadata,
    metadata_of,
    ColorKind,
};
use crate::color::{triples, triples_from_bytes, RgbColor};
use crate::report::{render_report, report_text};
use crate::scale::{scale_down_by_width, scaled_height};
use crate::swatch::{create_solid_color_image, solid_image_text};

verus! {

/// Why no report could be made.
#[derive(Debug, PartialEq, Eq, Structural)]
pub enum SummaryError {
    /// The bytes do not decode as an image.
    Decode,
    /// The image's metadata cannot be read.
    Metadata,
    /// The image has width zero, so no height keeps its aspect ratio.
    ZeroWidth,
    /// The thumbnail would not fit in memory.
    TooLarge,
    /// No colour stands at the chosen position of the colour list.
    NoColor,
    /// The thumbnail would have no pixels: its height rounds down to zero.
    EmptyThumbnail,
}

/// The sizes of a thumbnail, and the colour that fills it.
#[derive(Debug)]
pub struct Plan {
    pub colors: Vec<RgbColor<u8>>,
    pub width: u32,
    pub height: u32,
    pub thumbnail_width: u32,
    pub thumbnail_height: u32,
    pub swatch: RgbColor<u8>,
}

/// The colour channels are extracted with the alpha hint exactly for
/// 8-bit RGBA images.
pub open spec fn alpha_hint(kind: ColorKind) -> bool {
    kind == ColorKind::Rgba8
}

/// Whether the colour extraction is told that pixels carry alpha.
pub fn has_alpha(kind: &ColorKind) -> (r: bool)
    ensures
        r == alpha_hint(*kind),
{
    match kind {
        ColorKind::Rgba8 => true,
        _ => false,
    }
}

/// Whether a `thumbnail_width` x `thumbnail_height` RGB buffer fits in memory.
pub open spec fn thumbnail_fits(thumbnail_width: u32, thumbnail_height: nat) -> bool {
    thumbnail_height <= u32::MAX && 3 * thumbnail_width * thumbnail_height <= usize::MAX
}

/// The thumbnail height and the colour list for the given extracted
/// channels and image size, or the error that comes first.
pub open spec fn plan_outcome(
    channels: Seq<u8>,
    width: u32,
    height: u32,
    thumbnail_width: u32,
    swatch_index: nat,
) -> Result<(u32, Seq<RgbColor<u8>>), SummaryError> {
    let th = scaled_height(width as nat, height as nat, thumbnail_width as nat);
    if width == 0 {
        Err(SummaryError::ZeroWidth)
    } else if th == 0 {
        Err(SummaryError::EmptyThumbnail)
    } else if !thumbnail_fits(thumbnail_width, th) {
        Err(SummaryError::TooLarge)
    } else if swatch_index >= triples(channels).len() {
        Err(SummaryError::NoColor)
    } else {
        Ok((th as u32, triples(channels)))
    }
}

/// Groups the extracted channels into colours, computes the thumbnail
/// height that keeps the aspect ratio at `thumbnail_width`, and picks the
/// colour at `swatch_index` to fill it.
pub fn plan_thumbnail(
    channels: &Vec<u8>,
    width: u32,
    height: u32,
    thumbnail_width: u32,
    swatch_index: usize,
) -> (r: Result<Plan, SummaryError>)
    ensures
        match plan_outcome(channels@, width, height, thumbnail_width, swatch_index as nat) {
            Ok((th, cs)) => r matches Ok(p) && p.colors@ == cs && p.thumbnail_height == th
                && p.width == width && p.height == height && p.thumbnail_width == thumbnail_width
                && p.swatch == cs[swatch_index as int],
            Err(e) => r matches Err(e2) && e2 == e,
        },
        r matches Ok(p) ==> p.thumbnail_width > 0 && p.thumbnail_height > 0,
{
    let fraction = match scale_down_by_width(width, height, thumbnail_width) {
        Some(f) => f,
        None => {
            return Err(SummaryError::ZeroWidth);
        },
    };
    let th: u64 = fraction.floor();
    if th > u32::MAX as u64 {
        return Err(SummaryError::TooLarge);
    }
    let th32: u32 = th as u32;
    if th32 == 0 {
        return Err(SummaryError::EmptyThumbnail);
    }
    assert(thumbnail_width > 0) by (nonlinear_arith)
        requires
            th == (thumbnail_width as nat * height as nat) / width as nat,
            th > 0,
            width > 0,
    ;
    assert((thumbnail_width as u64) * (th32 as u64) <= u64::MAX) by (nonlinear_arith);
    let cells: u64 = (thumbnail_width as u64) * (th32 as u64);
    assert(cells > usize::MAX as u64 / 3 <==> 3 * cells > usize::MAX) by (nonlinear_arith)
        requires
            cells >= 0,
    ;
    assert(3 * thumbnail_width * th32 == 3 * cells) by (nonlinear_arith)
        requires
            cells == thumbnail_width * th32,
    ;
    assert(th == scaled_height(width as nat, height as nat, thumbnail_width as nat));
    if cells > usize::MAX as u64 / 3 {
        return Err(SummaryError::TooLarge);
    }
    let colors = triples_from_bytes(channels);
    if swatch_index >= colors.len() {
        return Err(SummaryError::NoColor);
    }
    let c = &colors[swatch_index];
    let swatch = RgbColor { r: c.r, g: c.g, b: c.b };
    Ok(
        Plan {
            colors,
            width,
            height,
            thumbnail_width,
            thumbnail_height: th32,
            swatch,
        },
    )
}

/// The report on the encoded image `bytes` with a thumbnail
/// `thumbnail_width` pixels wide filled with the colour at `swatch_index`,
/// or the first error met: decoding, metadata, then planning.
///
/// The thumbnail height in the report is the height of the encoded
/// thumbnail: the exact height that keeps the aspect ratio, rounded down to
/// whole pixels, not a fractional value.
pub open spec fn summary_outcome(bytes: Seq<u8>, thumbnail_width: u32, swatch_index: nat) -> Result<
    Seq<char>,
    SummaryError,
> {
    match decoded_kind_of(bytes) {
        None => Err(SummaryError::Decode),
        Some(kind) => match metadata_of(bytes) {
            None => Err(SummaryError::Metadata),
            Some((w, h, _mime)) => match plan_outcome(
                dominant_channels_of(bytes, alpha_hint(kind)),
                w,
                h,
                thumbnail_width,
                swatch_index,
            ) {
                Err(e) => Err(e),
                Ok((th, cs)) => Ok(
                    report_text(
                        cs,
                        w,
                        h,
                        thumbnail_width,
                        th,
                        solid_image_text(thumbnail_width, th, cs[swatch_index as int]),
                    ),
                ),
            },
        },
    }
}

/// Decodes the image, extracts its dominant colours, makes a solid-colour
/// thumbnail `thumbnail_width` pixels wide that keeps the aspect ratio, and
/// writes the report. Bytes that do not decode as an image give
/// `Decode`, before anything is encoded. The thumbnail height in the report
/// is that of the encoded thumbnail, in whole pixels.
pub fn summarize(bytes: &Vec<u8>, thumbnail_width: u32, swatch_index: usize) -> (r: Result<
    String,
    SummaryError,
>)
    ensures
        match summary_outcome(bytes@, thumbnail_width, swatch_index as nat) {
            Ok(t) => r matches Ok(s) && s@ == t,
            Err(e) => r matches Err(e2) && e2 == e,
        },
        decoded_kind_of(bytes@) is None ==> r matches Err(SummaryError::Decode),
{
    let kind = match decode_color_kind(bytes) {
        Some(k) => k,
        None => {
            return Err(SummaryError::Decode);
        },
    };
    let meta = match load_metadata(bytes) {
        Some(m) => m,
        None => {
            return Err(SummaryError::Metadata);
        },
    };
    let channels = get_colors(bytes, has_alpha(&kind));
    let plan = match plan_thumbnail(
        &channels,
        meta.width,
        meta.height,
        thumbnail_width,
        swatch_index,
    ) {
        Ok(p) => p,
        Err(e) => {
            return Err(e);
        },
    };
    let payload = create_solid_color_image(
        plan.thumbnail_width,
        plan.thumbnail_height,
        &plan.swatch,
    );
    Ok(
        render_report(
            &plan.colors,
            plan.width,
            plan.height,
            plan.thumbnail_width,
            plan.thumbnail_height,
            payload.as_str(),
        ),
    )
}

} // verus!
