//! The output format that matches a declared MIME type.

use vstd::prelude::*;

verus! {

/// An encoding for a re-encoded image; `Unsupported` keeps the MIME type
/// that has no encoder, so that encoding fails instead of falling back to
/// another format.
#[derive(Debug, PartialEq, Eq)]
pub enum OutputFormat {
    Jpeg(u8),
    Png,
    Gif,
    Unsupported(String),
}

/// The format for `mime`: JPEG (with `jpeg_quality`), PNG or GIF for their
/// MIME types, and `Unsupported` with the MIME type itself for any other.
pub open spec fn format_for(mime: Seq<char>, jpeg_quality: u8) -> Option<OutputFormat> {
    if mime == "image/jpeg"@ {
        Some(OutputFormat::Jpeg(jpeg_quality))
    } else if mime == "image/png"@ {
        Some(OutputFormat::Png)
    } else if mime == "image/gif"@ {
        Some(OutputFormat::Gif)
    } else {
        None
    }
}

/// Chooses the output format from a MIME type. Only the three MIME types
/// `image/jpeg`, `image/png` and `image/gif` have a format; every other one
/// is returned as `Unsupported`.
pub fn take_format(mime: &str, jpeg_quality: u8) -> (r: OutputFormat)
    ensures
        match format_for(mime@, jpeg_quality) {
            Some(f) => r == f,
            None => r matches OutputFormat::Unsupported(m) && m@ == mime@,
        },
{
    let m: String = mime.to_owned();
    if m == "image/jpeg".to_owned() {
        OutputFormat::Jpeg(jpeg_quality)
    } else if m == "image/png".to_owned() {
        OutputFormat::Png
    } else if m == "image/gif".to_owned() {
        OutputFormat::Gif
    } else {
        OutputFormat::Unsupported(m)
    }
}

} // verus!
