//! The text report: the colours, the original and thumbnail dimensions, and
//! the thumbnail as a data URL.

use vstd::prelude::*;
use vstd::string::StringExecFns;
use crate::color::{color_text, RgbColor};
use crate::text::{decimal, push_decimal};

verus! {

/// A colour's text between double quotes.
pub open spec fn quoted(c: RgbColor<u8>) -> Seq<char> {
    "\""@ + color_text(c) + "\""@
}

/// The quoted colours separated by `, `.
pub open spec fn list_items(cs: Seq<RgbColor<u8>>) -> Seq<char>
    decreases cs.len(),
{
    if cs.len() == 0 {
        Seq::empty()
    } else if cs.len() == 1 {
        quoted(cs[0])
    } else {
        list_items(cs.drop_last()) + ", "@ + quoted(cs.last())
    }
}

/// The colours as a bracketed list of quoted `rgb(r,g,b)` strings.
pub open spec fn color_list_text(cs: Seq<RgbColor<u8>>) -> Seq<char> {
    "["@ + list_items(cs) + "]"@
}

/// The four report lines, without a final line break. Every dimension is
/// written in whole pixels: the thumbnail height is the encoded thumbnail's
/// height, the exact scaled height rounded down, never a fraction.
pub open spec fn report_text(
    cs: Seq<RgbColor<u8>>,
    width: u32,
    height: u32,
    thumbnail_width: u32,
    thumbnail_height: u32,
    payload: Seq<char>,
) -> Seq<char> {
    "colors: "@ + color_list_text(cs) + "\noriginal_dimension: "@ + decimal(width as nat) + "/"@
        + decimal(height as nat) + "\nthumbnail_dimension: "@ + decimal(thumbnail_width as nat)
        + "/"@ + decimal(thumbnail_height as nat) + "\nbase64_thumbnail: data:image/png;base64,"@
        + payload
}

/// Appends the bracketed list of quoted colours to `s`.
pub fn push_color_list(s: &mut String, colors: &Vec<RgbColor<u8>>)
    ensures
        final(s)@ == old(s)@ + color_list_text(colors@),
{
    let ghost cs = colors@;
    s.append("[");
    let mut i: usize = 0;
    while i < colors.len()
        invariant
            cs == colors@,
            i <= cs.len(),
            s@ =~= old(s)@ + "["@ + list_items(cs.take(i as int)),
        decreases cs.len() - i,
    {
        let ghost before = s@;
        if i > 0 {
            s.append(", ");
        }
        s.append("\"");
        colors[i].push_text(s);
        s.append("\"");
        proof {
            assert(cs.take(i + 1).drop_last() =~= cs.take(i as int));
            if i == 0 {
                assert(cs.take(0) =~= Seq::<RgbColor<u8>>::empty());
                assert(list_items(cs.take(0)) =~= Seq::<char>::empty());
            }
            assert(s@ =~= old(s)@ + "["@ + list_items(cs.take(i + 1)));
        }
        i = i + 1;
    }
    assert(cs.take(cs.len() as int) =~= cs);
    s.append("]");
    assert(s@ =~= old(s)@ + color_list_text(colors@));
}

/// The report for the given colours, dimensions and base64 thumbnail.
pub fn render_report(
    colors: &Vec<RgbColor<u8>>,
    width: u32,
    height: u32,
    thumbnail_width: u32,
    thumbnail_height: u32,
    payload: &str,
) -> (r: String)
    ensures
        r@ == report_text(colors@, width, height, thumbnail_width, thumbnail_height, payload@),
{
    let mut s = String::new();
    s.append("colors: ");
    push_color_list(&mut s, colors);
    s.append("\noriginal_dimension: ");
    push_decimal(&mut s, width as u64);
    s.append("/");
    push_decimal(&mut s, height as u64);
    s.append("\nthumbnail_dimension: ");
    push_decimal(&mut s, thumbnail_width as u64);
    s.append("/");
    push_decimal(&mut s, thumbnail_height as u64);
    s.append("\nbase64_thumbnail: data:image/png;base64,");
    s.append(payload);
    assert(s@ =~= report_text(
        colors@,
        width,
        height,
        thumbnail_width,
        thumbnail_height,
        payload@,
    ));
    s
}

} // verus!
