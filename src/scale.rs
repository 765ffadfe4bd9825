//! Aspect-ratio-preserving scaling to a target width.

use vstd::prelude::*;

verus! {

/// A non-negative rational number `numerator / denominator`.
#[derive(Debug, PartialEq, Eq, Structural)]
pub struct Fraction {
    pub numerator: u64,
    pub denominator: u64,
}

impl Fraction {
    /// Well-formed: the denominator is positive.
    pub open spec fn wf(&self) -> bool {
        self.denominator > 0
    }

    /// The value rounded toward zero.
    pub fn floor(&self) -> (r: u64)
        requires
            self.wf(),
        ensures
            r == self.numerator / self.denominator,
    {
        self.numerator / self.denominator
    }
}

/// The height that keeps the aspect ratio of a `width` x `height` image at
/// `new_width`, rounded toward zero: `new_width / (width / height)`.
pub open spec fn scaled_height(width: nat, height: nat, new_width: nat) -> nat {
    (new_width * height) / width
}

/// The exact height of a `width` x `height` image scaled to `new_width`.
pub open spec fn scaled_fraction(width: u32, height: u32, new_width: u32) -> Fraction {
    Fraction { numerator: (new_width * height) as u64, denominator: width as u64 }
}

/// The exact height `new_width * height / width` that keeps the aspect ratio
/// of a `width` x `height` image when its width becomes `new_width`. There is
/// none for an image of width zero.
pub fn scale_down_by_width(width: u32, height: u32, new_width: u32) -> (r: Option<Fraction>)
    ensures
        width == 0 <==> r is None,
        width > 0 ==> r == Some(scaled_fraction(width, height, new_width)),
        r matches Some(f) ==> f.wf() && f.numerator == new_width * height,
{
    if width == 0 {
        None
    } else {
        assert((new_width as u64) * (height as u64) <= u64::MAX) by (nonlinear_arith);
        Some(Fraction { numerator: (new_width as u64) * (height as u64), denominator: width as u64 })
    }
}

/// Scaling keeps the aspect ratio: the exact scaled height relates to
/// `new_width` as `height` relates to `width`, and the height in whole pixels
/// falls short of the exact one by less than one pixel.
pub proof fn lemma_aspect_ratio_preserved(width: u32, height: u32, new_width: u32)
    requires
        width > 0,
    ensures
        scaled_fraction(width, height, new_width).numerator * width == height * new_width
            * scaled_fraction(width, height, new_width).denominator,
        scaled_height(width as nat, height as nat, new_width as nat) * width <= new_width * height,
        new_width * height < (scaled_height(width as nat, height as nat, new_width as nat) + 1)
            * width,
{
    let q = scaled_height(width as nat, height as nat, new_width as nat);
    let p = new_width as int * height as int;
    assert(p == new_width * height);
    assert(q * width <= p && p < (q + 1) * width) by (nonlinear_arith)
        requires
            width > 0,
            p >= 0,
            q == p / width as int,
    ;
    assert(((new_width * height) as u64) * width == height * new_width * (width as u64))
        by (nonlinear_arith);
}

} // verus!
