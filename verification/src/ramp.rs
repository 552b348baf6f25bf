//! The character ramp and the luminance-to-index mapping.

use vstd::prelude::*;

verus! {

/// Number of characters in the ramp.
pub const RAMP_LEN: usize = 17;

/// The ramp entry at position `i`, densest/darkest first and a blank last.
pub open spec fn ramp_char_spec(i: int) -> char {
    if i == 0 {
        '$'
    } else if i == 1 {
        '#'
    } else if i == 2 {
        'B'
    } else if i == 3 {
        '%'
    } else if i == 4 {
        '*'
    } else if i == 5 {
        'o'
    } else if i == 6 {
        'c'
    } else if i == 7 {
        ';'
    } else if i == 8 {
        ':'
    } else if i == 9 {
        '<'
    } else if i == 10 {
        '~'
    } else if i == 11 {
        '^'
    } else if i == 12 {
        '"'
    } else if i == 13 {
        '\''
    } else if i == 14 {
        ','
    } else if i == 15 {
        '.'
    } else {
        ' '
    }
}

/// The fixed ramp as a sequence of 17 characters.
pub open spec fn ramp_seq() -> Seq<char> {
    Seq::new(RAMP_LEN as nat, |i: int| ramp_char_spec(i))
}

/// Position chosen for a luminance value: the 256 luminance values are cut
/// into 17 buckets by integer division, increasing with brightness, so that
/// luminance 0 picks the densest glyph and luminance 255 the blank.
pub open spec fn ramp_index_spec(luma: int) -> int {
    luma * 16 / 255
}

pub fn ramp_index(luma: u8) -> (i: usize)
    ensures
        i == ramp_index_spec(luma as int),
        i < RAMP_LEN,
{
    proof {
        lemma_ramp_index_bounds(luma as int);
    }
    ((luma as usize) * 16) / 255
}

pub fn ramp_char(i: usize) -> (c: char)
    requires
        i < RAMP_LEN,
    ensures
        c == ramp_seq()[i as int],
{
    if i == 0 {
        '$'
    } else if i == 1 {
        '#'
    } else if i == 2 {
        'B'
    } else if i == 3 {
        '%'
    } else if i == 4 {
        '*'
    } else if i == 5 {
        'o'
    } else if i == 6 {
        'c'
    } else if i == 7 {
        ';'
    } else if i == 8 {
        ':'
    } else if i == 9 {
        '<'
    } else if i == 10 {
        '~'
    } else if i == 11 {
        '^'
    } else if i == 12 {
        '"'
    } else if i == 13 {
        '\''
    } else if i == 14 {
        ','
    } else if i == 15 {
        '.'
    } else {
        ' '
    }
}

/// For every luminance in `[0, 255]` the chosen ramp position is in bounds,
/// luminance 255 picks the last entry (the blank) and luminance 0 the first
/// (the densest glyph).
pub proof fn lemma_ramp_index_bounds(luma: int)
    requires
        0 <= luma <= 255,
    ensures
        0 <= ramp_index_spec(luma) <= 16,
        luma == 255 ==> ramp_index_spec(luma) == 16,
        luma == 0 ==> ramp_index_spec(luma) == 0,
{
    assert(0 <= luma * 16 / 255 <= 16) by (nonlinear_arith)
        requires
            0 <= luma <= 255,
    ;
}

/// No ramp entry is the escape character, the space-and-glyph pair of a cell
/// never smuggles a control code into plain output.
pub proof fn lemma_ramp_char_not_escape(i: int)
    ensures
        ramp_char_spec(i) != '\u{1b}',
{
}

} // verus!
