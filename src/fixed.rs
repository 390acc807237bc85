//! Fixed-point quantities and their decimal text.
//!
//! A decimal quantity `x` is held as the integer `x * 1_000_000` ("millionths").
//! Percent values are millionths of a percent, so `6.0%` is `6_000_000`.

use vstd::prelude::*;

verus! {

/// Millionths in one whole unit.
pub const SCALE: u64 = 1_000_000;

/// The value that stands for `n / 0` with `n > 0`: larger than every finite ratio.
pub const UNBOUNDED_RATIO: u128 = 340282366920938463463374607431768211455;

/// `num / den` in millionths, rounded down. A zero denominator gives an
/// unbounded ratio when the numerator is positive, and no ratio at all when
/// the numerator is zero too (such a ratio meets no threshold).
pub open spec fn ratio_of(num: u64, den: u64) -> Option<u128> {
    if den > 0 {
        Some((num as int * SCALE as int / den as int) as u128)
    } else if num > 0 {
        Some(UNBOUNDED_RATIO)
    } else {
        None
    }
}

/// Whether a ratio exists and reaches the threshold `t` (both in millionths).
pub open spec fn ratio_at_least(r: Option<u128>, t: i64) -> bool {
    match r {
        Some(v) => v as int >= t as int,
        None => false,
    }
}

/// `x / d` clamped to the unit interval `[0, SCALE]`; non-positive `x` gives 0.
pub open spec fn unit_share(x: int, d: int) -> u64 {
    if x <= 0 {
        0
    } else if x / d > SCALE as int {
        SCALE
    } else {
        (x / d) as u64
    }
}

pub fn ratio(num: u64, den: u64) -> (r: Option<u128>)
    ensures
        r == ratio_of(num, den),
        den > 0 ==> (r matches Some(v) && v < UNBOUNDED_RATIO),
{
    if den > 0 {
        let n = num as u128;
        assert(n * 1_000_000 <= 0xffff_ffff_ffff_ffffu128 * 1_000_000) by (nonlinear_arith)
            requires
                n <= 0xffff_ffff_ffff_ffffu128,
        ;
        let m = n * 1_000_000;
        let q = m / (den as u128);
        assert(q as int <= m as int) by (nonlinear_arith)
            requires
                q as int == m as int / den as int,
                den > 0,
                m >= 0,
        ;
        Some(q)
    } else if num > 0 {
        Some(UNBOUNDED_RATIO)
    } else {
        None
    }
}

pub fn ratio_meets(r: Option<u128>, t: i64) -> (b: bool)
    ensures
        b == ratio_at_least(r, t),
{
    match r {
        Some(v) => t < 0 || v >= t as u128,
        None => false,
    }
}

/// Share of a ratio in the unit interval: `v / d`, at most one whole.
pub fn ratio_share(v: u128, d: u128) -> (c: u64)
    requires
        d > 0,
    ensures
        c == unit_share(v as int, d as int),
{
    if v == 0 {
        0
    } else if v / d > SCALE as u128 {
        SCALE
    } else {
        (v / d) as u64
    }
}

/// The character of a decimal digit.
pub open spec fn digit_char(d: int) -> char {
    if d == 0 {
        '0'
    } else if d == 1 {
        '1'
    } else if d == 2 {
        '2'
    } else if d == 3 {
        '3'
    } else if d == 4 {
        '4'
    } else if d == 5 {
        '5'
    } else if d == 6 {
        '6'
    } else if d == 7 {
        '7'
    } else if d == 8 {
        '8'
    } else {
        '9'
    }
}

/// Decimal digits of `n`, most significant first, without leading zeros.
pub open spec fn digits(n: nat) -> Seq<char>
    decreases n,
{
    if n < 10 {
        seq![digit_char(n as int)]
    } else {
        digits(n / 10) + seq![digit_char((n % 10) as int)]
    }
}

/// A magnitude in millionths rounded to hundredths, halves away from zero.
pub open spec fn hundredths(mag: nat) -> nat {
    mag / 10000 + if mag % 10000 >= 5000 { 1nat } else { 0nat }
}

/// Text of a magnitude in millionths with two decimal places (`6_000_000` is `6.00`).
pub open spec fn two_places(mag: nat) -> Seq<char> {
    let h = hundredths(mag);
    digits(h / 100) + seq!['.', digit_char(((h % 100) / 10) as int), digit_char((h % 10) as int)]
}

/// Text of a signed value in millionths with two decimal places.
pub open spec fn signed_two_places(v: int) -> Seq<char> {
    if v < 0 {
        seq!['-'] + two_places((-v) as nat)
    } else {
        two_places(v as nat)
    }
}

/// Text of a magnitude in millionths rounded to a whole number, halves up.
pub open spec fn whole_text(mag: nat) -> Seq<char> {
    digits(mag / 1_000_000 + if mag % 1_000_000 >= 500_000 { 1nat } else { 0nat })
}

/// Text of a ratio with two decimal places; an unbounded ratio reads `inf`.
pub open spec fn ratio_text(v: u128) -> Seq<char> {
    if v == UNBOUNDED_RATIO {
        seq!['i', 'n', 'f']
    } else {
        two_places(v as nat)
    }
}

fn digit_str(d: u128) -> (s: &'static str)
    requires
        d < 10,
    ensures
        s@ == seq![digit_char(d as int)],
{
    proof {
        reveal_strlit("0");
        reveal_strlit("1");
        reveal_strlit("2");
        reveal_strlit("3");
        reveal_strlit("4");
        reveal_strlit("5");
        reveal_strlit("6");
        reveal_strlit("7");
        reveal_strlit("8");
        reveal_strlit("9");
    }
    if d == 0 {
        "0"
    } else if d == 1 {
        "1"
    } else if d == 2 {
        "2"
    } else if d == 3 {
        "3"
    } else if d == 4 {
        "4"
    } else if d == 5 {
        "5"
    } else if d == 6 {
        "6"
    } else if d == 7 {
        "7"
    } else if d == 8 {
        "8"
    } else {
        "9"
    }
}

/// Appends the decimal digits of `n`.
pub fn push_digits(out: &mut String, n: u128)
    ensures
        final(out)@ == old(out)@ + digits(n as nat),
    decreases n,
{
    if n >= 10 {
        push_digits(out, n / 10);
        out.append(digit_str(n % 10));
        assert(out@ =~= old(out)@ + digits(n as nat));
    } else {
        out.append(digit_str(n));
        assert(out@ =~= old(out)@ + digits(n as nat));
    }
}

/// Appends a magnitude in millionths with two decimal places.
pub fn push_two_places(out: &mut String, mag: u128)
    ensures
        final(out)@ == old(out)@ + two_places(mag as nat),
{
    let h: u128 = mag / 10000 + if mag % 10000 >= 5000 { 1 } else { 0 };
    assert(h == hundredths(mag as nat));
    push_digits(out, h / 100);
    proof {
        reveal_strlit(".");
    }
    out.append(".");
    out.append(digit_str((h % 100) / 10));
    out.append(digit_str(h % 10));
    assert(out@ =~= old(out)@ + two_places(mag as nat));
}

/// Appends a signed value in millionths with two decimal places.
pub fn push_signed_two_places(out: &mut String, v: i128)
    ensures
        final(out)@ == old(out)@ + signed_two_places(v as int),
{
    if v < 0 {
        proof {
            reveal_strlit("-");
        }
        out.append("-");
        let mag: u128 = if v == i128::MIN {
            0x8000_0000_0000_0000_0000_0000_0000_0000u128
        } else {
            (-v) as u128
        };
        push_two_places(out, mag);
        assert(out@ =~= old(out)@ + signed_two_places(v as int));
    } else {
        push_two_places(out, v as u128);
    }
}

/// Appends a magnitude in millionths rounded to a whole number.
pub fn push_whole(out: &mut String, mag: u128)
    ensures
        final(out)@ == old(out)@ + whole_text(mag as nat),
{
    let w: u128 = mag / 1_000_000 + if mag % 1_000_000 >= 500_000 { 1 } else { 0 };
    push_digits(out, w);
}

/// Appends the text of a ratio.
pub fn push_ratio(out: &mut String, v: u128)
    ensures
        final(out)@ == old(out)@ + ratio_text(v),
{
    if v == UNBOUNDED_RATIO {
        proof {
            reveal_strlit("inf");
        }
        out.append("inf");
    } else {
        push_two_places(out, v);
    }
}

} // verus!
