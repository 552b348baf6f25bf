//! Target-size resolution and the row partition used by the worker variant.

use vstd::prelude::*;

verus! {

/// Default square size used when the terminal size cannot be detected.
pub const FALLBACK_EDGE: u32 = 50;

/// A source length scaled by a whole percentage, rounded half up.
pub open spec fn scaled_len_spec(d: int, scale: int) -> int {
    (d * scale + 50) / 100
}

/// Scales one dimension by `scale` percent, rounding half up and saturating
/// at `u32::MAX`.
pub fn scaled_len(d: u32, scale: u8) -> (r: u32)
    ensures
        scaled_len_spec(d as int, scale as int) <= u32::MAX ==> r as int == scaled_len_spec(
            d as int,
            scale as int,
        ),
        scaled_len_spec(d as int, scale as int) > u32::MAX ==> r == u32::MAX,
{
    proof {
        assert((d as int) * (scale as int) <= (u32::MAX as int) * 255) by (nonlinear_arith)
            requires
                d <= u32::MAX,
                scale <= 255,
        ;
    }
    let num: u64 = (d as u64) * (scale as u64) + 50;
    let q: u64 = num / 100;
    if q > (u32::MAX as u64) {
        u32::MAX
    } else {
        q as u32
    }
}

/// Scaling by 100 percent keeps a dimension exactly.
pub proof fn lemma_full_scale_keeps_len(d: int)
    requires
        0 <= d,
    ensures
        scaled_len_spec(d, 100) == d,
{
    assert((d * 100 + 50) / 100 == d) by (nonlinear_arith)
        requires
            0 <= d,
    ;
}

/// Resolves the target grid size. A nonzero scale means that percentage of
/// the source size, rounded half up; scale zero means fit to the detected
/// terminal size, falling back to a fixed square (and reporting the fallback
/// through the second component) when no size was detected.
pub fn resolve_target(sw: u32, sh: u32, scale: u8, term: Option<(u16, u16)>) -> (r: ((u32, u32), bool))
    ensures
        scale != 0 ==> r.1 == false,
        scale != 0 && scaled_len_spec(sw as int, scale as int) <= u32::MAX ==> r.0.0 as int
            == scaled_len_spec(sw as int, scale as int),
        scale != 0 && scaled_len_spec(sw as int, scale as int) > u32::MAX ==> r.0.0 == u32::MAX,
        scale != 0 && scaled_len_spec(sh as int, scale as int) <= u32::MAX ==> r.0.1 as int
            == scaled_len_spec(sh as int, scale as int),
        scale != 0 && scaled_len_spec(sh as int, scale as int) > u32::MAX ==> r.0.1 == u32::MAX,
        scale == 0 ==> match term {
            Some(size) => r.0.0 == size.0 as u32 && r.0.1 == size.1 as u32 && r.1 == false,
            None => r.0.0 == FALLBACK_EDGE && r.0.1 == FALLBACK_EDGE && r.1 == true,
        },
{
    if scale == 0 {
        match term {
            Some(size) => ((size.0 as u32, size.1 as u32), false),
            None => ((FALLBACK_EDGE, FALLBACK_EDGE), true),
        }
    } else {
        ((scaled_len(sw, scale), scaled_len(sh, scale)), false)
    }
}

/// Cuts `height` rows into `threads` contiguous ranges: each range but the
/// last holds `height / threads` rows, the last absorbs the remainder.
pub fn row_partition(height: u32, threads: u8) -> (parts: Vec<(u32, u32)>)
    requires
        threads >= 1,
    ensures
        parts@.len() == threads as int,
        parts@[0].0 == 0,
        parts@[threads as int - 1].1 == height,
        forall|i: int|
            0 <= i < threads as int ==> (#[trigger] parts@[i]).0 <= parts@[i].1 <= height,
        forall|i: int|
            0 <= i < threads as int - 1 ==> (#[trigger] parts@[i]).1 == parts@[i + 1].0,
        forall|i: int|
            0 <= i < threads as int ==> (#[trigger] parts@[i]).0 == i * ((height as int) / (
            threads as int)),
{
    let section: u32 = height / (threads as u32);
    proof {
        assert((threads as int) * (section as int) <= height as int) by (nonlinear_arith)
            requires
                threads >= 1,
                section as int == (height as int) / (threads as int),
                height >= 0,
        ;
    }
    let mut parts: Vec<(u32, u32)> = Vec::new();
    let mut i: u8 = 0;
    let mut start: u32 = 0;
    while i < threads
        invariant
            threads >= 1,
            i <= threads,
            section as int == (height as int) / (threads as int),
            (threads as int) * (section as int) <= height as int,
            parts@.len() == i as int,
            i < threads ==> start as int == (i as int) * (section as int),
            i == threads ==> start == height,
            start <= height,
            i as int >= 1 ==> parts@[0].0 == 0,
            forall|j: int| 0 <= j < i as int ==> (#[trigger] parts@[j]).0 <= parts@[j].1 <= height,
            forall|j: int| 0 <= j < i as int - 1 ==> (#[trigger] parts@[j]).1 == parts@[j + 1].0,
            forall|j: int|
                0 <= j < i as int ==> (#[trigger] parts@[j]).0 == j * (section as int),
            i as int >= 1 && i < threads ==> parts@[i as int - 1].1 == start,
            i == threads ==> parts@[i as int - 1].1 == height,
        decreases threads as int - i as int,
    {
        let end: u32 = if i == threads - 1 {
            height
        } else {
            proof {
                assert((i as int + 1) * (section as int) <= (threads as int) * (section as int))
                    by (nonlinear_arith)
                    requires
                        i as int + 1 <= threads as int,
                        section >= 0,
                ;
                assert((i as int) * (section as int) + section as int == (i as int + 1) * (
                section as int)) by (nonlinear_arith);
            }
            start + section
        };
        parts.push((start, end));
        start = end;
        i = i + 1;
    }
    parts
}

} // verus!
