//! The pixel type and its luminance reduction.

use vstd::prelude::*;

verus! {

/// One RGBA pixel, four 8-bit channels, immutable once read from the source.
#[derive(Clone, Copy, PartialEq, Eq, Structural, Debug)]
pub struct Pixel {
    pub r: u8,
    pub g: u8,
    pub b: u8,
    pub a: u8,
}

impl Pixel {
    pub fn new(r: u8, g: u8, b: u8, a: u8) -> (p: Pixel)
        ensures
            p == (Pixel { r, g, b, a }),
    {
        Pixel { r, g, b, a }
    }

    /// ITU-R BT.601 luminance of the color channels, by integer weights that
    /// sum to 1000; the alpha channel is ignored. Always in `[0, 255]`.
    pub open spec fn luma_spec(self) -> int {
        (299 * (self.r as int) + 587 * (self.g as int) + 114 * (self.b as int)) / 1000
    }

    pub fn luma(&self) -> (l: u8)
        ensures
            l as int == self.luma_spec(),
    {
        let weighted: u32 = 299 * (self.r as u32) + 587 * (self.g as u32) + 114 * (self.b as u32);
        proof {
            lemma_luma_bounds(*self);
        }
        (weighted / 1000) as u8
    }
}

/// The weighted sum is at most `1000 * 255`, so the quotient fits in a byte;
/// a pure white pixel reaches exactly 255 and a pure black one exactly 0.
pub proof fn lemma_luma_bounds(p: Pixel)
    ensures
        0 <= p.luma_spec() <= 255,
{
    assert(0 <= 299 * (p.r as int) + 587 * (p.g as int) + 114 * (p.b as int) <= 255000)
        by (nonlinear_arith);
    assert(0 <= (299 * (p.r as int) + 587 * (p.g as int) + 114 * (p.b as int)) / 1000 <= 255)
        by (nonlinear_arith)
        requires
            0 <= 299 * (p.r as int) + 587 * (p.g as int) + 114 * (p.b as int) <= 255000,
    ;
}

} // verus!
