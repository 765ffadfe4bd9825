//! Colour triples taken from a flat channel sequence, and their text form.

use vstd::prelude::*;
use vstd::string::StringExecFns;
use crate::text::{decimal, push_decimal};

verus! {

/// A colour given by its red, green and blue channels.
#[derive(Debug, PartialEq, Eq, Structural)]
pub struct RgbColor<T> {
    pub r: T,
    pub g: T,
    pub b: T,
}

/// `rgb(r,g,b)` with each channel in decimal.
pub open spec fn color_text(c: RgbColor<u8>) -> Seq<char> {
    "rgb("@ + decimal(c.r as nat) + ","@ + decimal(c.g as nat) + ","@ + decimal(c.b as nat) + ")"@
}

/// The `i`-th colour of a flat channel sequence read in consecutive,
/// non-overlapping groups of three from the start.
pub open spec fn triple_at(channels: Seq<u8>, i: int) -> RgbColor<u8> {
    RgbColor { r: channels[3 * i], g: channels[3 * i + 1], b: channels[3 * i + 2] }
}

/// Every complete group of three channels, in order; a trailing group of one
/// or two channels is left out.
pub open spec fn triples(channels: Seq<u8>) -> Seq<RgbColor<u8>> {
    Seq::new((channels.len() / 3) as nat, |i: int| triple_at(channels, i))
}

impl RgbColor<u8> {
    /// Appends `rgb(r,g,b)` to `s`.
    pub fn push_text(&self, s: &mut String)
        ensures
            final(s)@ == old(s)@ + color_text(*self),
    {
        s.append("rgb(");
        push_decimal(s, self.r as u64);
        s.append(",");
        push_decimal(s, self.g as u64);
        s.append(",");
        push_decimal(s, self.b as u64);
        s.append(")");
        assert(s@ =~= old(s)@ + color_text(*self));
    }

    /// The colour written as `rgb(r,g,b)`.
    pub fn to_string(&self) -> (r: String)
        ensures
            r@ == color_text(*self),
    {
        let mut s = String::new();
        self.push_text(&mut s);
        assert(s@ =~= color_text(*self));
        s
    }
}

/// Groups a flat channel sequence into colours: channels `3i`, `3i + 1` and
/// `3i + 2` make the `i`-th colour, and trailing channels that do not fill a
/// group are dropped.
pub fn triples_from_bytes(channels: &Vec<u8>) -> (r: Vec<RgbColor<u8>>)
    ensures
        r@ == triples(channels@),
        r@.len() == channels@.len() / 3,
{
    let n: usize = channels.len() / 3;
    let mut out: Vec<RgbColor<u8>> = Vec::new();
    let mut i: usize = 0;
    while i < n
        invariant
            n == channels@.len() / 3,
            channels@.len() <= usize::MAX,
            i <= n,
            out@ =~= triples(channels@).take(i as int),
        decreases n - i,
    {
        assert(3 * i + 2 < channels@.len()) by (nonlinear_arith)
            requires
                i < n,
                n == channels@.len() / 3,
        ;
        let k: usize = 3 * i;
        let c = RgbColor { r: channels[k], g: channels[k + 1], b: channels[k + 2] };
        out.push(c);
        i = i + 1;
    }
    assert(out@ =~= triples(channels@));
    out
}

/// The text of every colour, in order.
pub fn color_strings(colors: &Vec<RgbColor<u8>>) -> (r: Vec<String>)
    ensures
        r@.len() == colors@.len(),
        forall|i: int| 0 <= i < colors@.len() ==> #[trigger] r@[i]@ == color_text(colors@[i]),
{
    let mut out: Vec<String> = Vec::new();
    let mut i: usize = 0;
    while i < colors.len()
        invariant
            i <= colors@.len(),
            out@.len() == i,
            forall|j: int| 0 <= j < i ==> #[trigger] out@[j]@ == color_text(colors@[j]),
        decreases colors@.len() - i,
    {
        out.push(colors[i].to_string());
        i = i + 1;
    }
    out
}

} // verus!
