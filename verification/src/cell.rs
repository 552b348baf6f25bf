//! The per-pixel output unit and the color policy that produces it.

use vstd::prelude::*;
use crate::pixel::{lemma_luma_bounds, Pixel};
use crate::ramp::{lemma_ramp_index_bounds, ramp_char, ramp_char_spec, ramp_index, ramp_index_spec};

verus! {

/// The flags that drive rendering: whether cells carry the pixel's own color,
/// whether fully transparent pixels are blanked out, and whether the output
/// stream takes color escape sequences at all.
#[derive(Clone, Copy, PartialEq, Eq, Structural, Debug)]
pub struct RenderOptions {
    pub colour: bool,
    pub no_bg: bool,
    pub capable: bool,
}

/// One output cell: the chosen ramp glyph, the display color, and whether the
/// cell is rendered as plain blank space instead.
#[derive(Clone, Copy, PartialEq, Eq, Structural, Debug)]
pub struct RenderCell {
    pub ch: char,
    pub r: u8,
    pub g: u8,
    pub b: u8,
    pub blank: bool,
}

/// The color policy: the glyph is the ramp entry for the pixel's luminance;
/// the display color is the pixel's own color when `colour` is set and plain
/// white otherwise; the cell is blank exactly when `no_bg` is set and the
/// pixel is fully transparent.
pub open spec fn cell_spec(p: Pixel, colour: bool, no_bg: bool) -> RenderCell {
    RenderCell {
        ch: ramp_char_spec(ramp_index_spec(p.luma_spec())),
        r: if colour { p.r } else { 255 },
        g: if colour { p.g } else { 255 },
        b: if colour { p.b } else { 255 },
        blank: no_bg && p.a == 0,
    }
}

pub fn make_cell(p: &Pixel, colour: bool, no_bg: bool) -> (c: RenderCell)
    ensures
        c == cell_spec(*p, colour, no_bg),
{
    let luma = p.luma();
    proof {
        lemma_luma_bounds(*p);
        lemma_ramp_index_bounds(p.luma_spec());
    }
    let idx = ramp_index(luma);
    let ch = ramp_char(idx);
    RenderCell {
        ch,
        r: if colour { p.r } else { 255 },
        g: if colour { p.g } else { 255 },
        b: if colour { p.b } else { 255 },
        blank: no_bg && p.a == 0,
    }
}

} // verus!
