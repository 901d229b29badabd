//! Decimal rendering of the integer and thousandths-scaled parameters,
//! proved to produce exactly the digit sequence of the value.
use vstd::prelude::*;

verus! {

/// The decimal digit character for `d`.
pub open spec fn spec_digit_char(d: nat) -> char
    recommends
        d < 10,
{
    if d == 0 {
        '0'
    } else if d == 1 {
        '1'
    } else if d == 2 {
        '2'
    } else if d == 3 {
        '3'
    } else if d == 4 {
        '4'
    } else if d == 5 {
        '5'
    } else if d == 6 {
        '6'
    } else if d == 7 {
        '7'
    } else if d == 8 {
        '8'
    } else {
        '9'
    }
}

/// The decimal digit sequence of `n`, most significant digit first and
/// without leading zeros (a lone zero for zero itself).
pub open spec fn spec_digits(n: nat) -> Seq<char>
    decreases n,
{
    if n < 10 {
        seq![spec_digit_char(n)]
    } else {
        spec_digits(n / 10) + seq![spec_digit_char(n % 10)]
    }
}

/// The decimal rendering of a signed value: a minus sign before the
/// digits of its magnitude when negative.
pub open spec fn spec_signed(n: int) -> Seq<char> {
    if n < 0 {
        seq!['-'] + spec_digits((-n) as nat)
    } else {
        spec_digits(n as nat)
    }
}

/// The decimal rendering of a value held in thousandths: the whole
/// part, a point, and exactly three fractional digits.
pub open spec fn spec_milli(n: nat) -> Seq<char> {
    spec_digits(n / 1000) + seq!['.'] + seq![
        spec_digit_char((n % 1000) / 100),
        spec_digit_char((n % 100) / 10),
        spec_digit_char(n % 10),
    ]
}

/// Returns the one-character string for the decimal digit `d`.
fn digit_str(d: u8) -> (s: &'static str)
    requires
        d < 10,
    ensures
        s@ =~= seq![spec_digit_char(d as nat)],
{
    proof {
        reveal_strlit("0");
        reveal_strlit("1");
        reveal_strlit("2");
        reveal_strlit("3");
        reveal_strlit("4");
        reveal_strlit("5");
        reveal_strlit("6");
        reveal_strlit("7");
        reveal_strlit("8");
        reveal_strlit("9");
    }
    match d {
        0 => "0",
        1 => "1",
        2 => "2",
        3 => "3",
        4 => "4",
        5 => "5",
        6 => "6",
        7 => "7",
        8 => "8",
        _ => "9",
    }
}

/// Appends the decimal digits of `n` to `out`.
pub fn push_digits(out: &mut String, n: u64)
    ensures
        final(out)@ == old(out)@ + spec_digits(n as nat),
    decreases n,
{
    if n >= 10 {
        push_digits(out, n / 10);
    }
    out.append(digit_str((n % 10) as u8));
    assert(out@ =~= old(out)@ + spec_digits(n as nat));
}

/// Appends the decimal rendering of the signed value `n` to `out`.
pub fn push_signed(out: &mut String, n: i32)
    ensures
        final(out)@ == old(out)@ + spec_signed(n as int),
{
    proof {
        reveal_strlit("-");
    }
    let wide: i64 = n as i64;
    if wide < 0 {
        out.append("-");
        push_digits(out, (-wide) as u64);
        assert(out@ =~= old(out)@ + spec_signed(n as int));
    } else {
        push_digits(out, wide as u64);
    }
}

/// Appends the decimal rendering of the thousandths-scaled value `n`
/// to `out`.
pub fn push_milli(out: &mut String, n: u32)
    ensures
        final(out)@ == old(out)@ + spec_milli(n as nat),
{
    proof {
        reveal_strlit(".");
    }
    push_digits(out, (n / 1000) as u64);
    out.append(".");
    out.append(digit_str(((n % 1000) / 100) as u8));
    out.append(digit_str(((n % 100) / 10) as u8));
    out.append(digit_str((n % 10) as u8));
    assert(out@ =~= old(out)@ + spec_milli(n as nat));
}

} // verus!
