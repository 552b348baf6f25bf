//! Small verified helpers for building the output string, and the one
//! specification this crate assumes of the standard library's `String`.

use vstd::prelude::*;
use vstd::string::StringExecFns;

verus! {

/// Relies on std's `String::push`: appends exactly the given character.
pub assume_specification[ String::push ](s: &mut String, ch: char)
    ensures
        final(s)@ == old(s)@.push(ch),
;

/// Appends a string slice; a thin front over vstd's `String` append.
pub fn push_str_lit(out: &mut String, piece: &str)
    ensures
        final(out)@ == old(out)@ + piece@,
{
    out.append(piece);
}

/// The decimal digit character for a value in `[0, 9]`.
pub open spec fn digit_char_spec(d: int) -> char {
    if d == 0 {
        '0'
    } else if d == 1 {
        '1'
    } else if d == 2 {
        '2'
    } else if d == 3 {
        '3'
    } else if d == 4 {
        '4'
    } else if d == 5 {
        '5'
    } else if d == 6 {
        '6'
    } else if d == 7 {
        '7'
    } else if d == 8 {
        '8'
    } else {
        '9'
    }
}

/// Decimal digits of a nonnegative value, most significant first, no leading
/// zeros (a single `'0'` for zero).
pub open spec fn dec_spec(n: int) -> Seq<char>
    decreases n,
{
    if n <= 9 {
        seq![digit_char_spec(n)]
    } else {
        dec_spec(n / 10).push(digit_char_spec(n % 10))
    }
}

fn digit_char(d: u8) -> (c: char)
    requires
        d <= 9,
    ensures
        c == digit_char_spec(d as int),
{
    if d == 0 {
        '0'
    } else if d == 1 {
        '1'
    } else if d == 2 {
        '2'
    } else if d == 3 {
        '3'
    } else if d == 4 {
        '4'
    } else if d == 5 {
        '5'
    } else if d == 6 {
        '6'
    } else if d == 7 {
        '7'
    } else if d == 8 {
        '8'
    } else {
        '9'
    }
}

/// Appends the decimal rendering of a byte.
pub fn push_decimal(out: &mut String, n: u8)
    ensures
        final(out)@ == old(out)@ + dec_spec(n as int),
{
    proof {
        lemma_dec_spec_u8(n as int);
    }
    if n >= 100 {
        out.push(digit_char(n / 100));
        out.push(digit_char((n / 10) % 10));
        out.push(digit_char(n % 10));
        proof {
            assert(final(out)@ =~= old(out)@ + dec_spec(n as int));
        }
    } else if n >= 10 {
        out.push(digit_char(n / 10));
        out.push(digit_char(n % 10));
        proof {
            assert(final(out)@ =~= old(out)@ + dec_spec(n as int));
        }
    } else {
        out.push(digit_char(n));
        proof {
            assert(final(out)@ =~= old(out)@ + dec_spec(n as int));
        }
    }
}

/// Unfolds the decimal rendering of a byte value into its up-to-three digit
/// characters.
proof fn lemma_dec_spec_u8(n: int)
    requires
        0 <= n <= 255,
    ensures
        n <= 9 ==> dec_spec(n) == seq![digit_char_spec(n)],
        10 <= n <= 99 ==> dec_spec(n) == seq![
            digit_char_spec(n / 10),
            digit_char_spec(n % 10),
        ],
        100 <= n ==> dec_spec(n) == seq![
            digit_char_spec(n / 100),
            digit_char_spec(n / 10 % 10),
            digit_char_spec(n % 10),
        ],
{
    if n <= 9 {
        assert(dec_spec(n) =~= seq![digit_char_spec(n)]);
    } else if n <= 99 {
        assert(dec_spec(n / 10) =~= seq![digit_char_spec(n / 10)]);
        assert(dec_spec(n) =~= seq![digit_char_spec(n / 10), digit_char_spec(n % 10)]);
    } else {
        assert(n / 10 / 10 == n / 100) by (nonlinear_arith)
            requires
                100 <= n <= 255,
        ;
        assert(dec_spec(n / 100) =~= seq![digit_char_spec(n / 100)]);
        assert(dec_spec(n / 10) =~= seq![digit_char_spec(n / 100), digit_char_spec(n / 10 % 10)]);
        assert(dec_spec(n) =~= seq![
            digit_char_spec(n / 100),
            digit_char_spec(n / 10 % 10),
            digit_char_spec(n % 10),
        ]);
    }
}

} // verus!
