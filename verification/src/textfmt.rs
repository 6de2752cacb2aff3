//! Decimal rendering of the monitor's fixed-point quantities.
//!
//! The sensor reports whole ppm for the concentration, hundredths of a
//! degree for the temperature and tenths of a hectopascal for the pressure,
//! so every displayed number is an integer scaled by 1, 100 or 10. The
//! functions here turn such values into their exact decimal text.

use vstd::prelude::*;

use vstd::string::StringExecFns;

verus! {

/// The ASCII digit for a single decimal digit value.
pub open spec fn digit_char(d: int) -> char {
    if d == 0 {
        '0'
    } else if d == 1 {
        '1'
    } else if d == 2 {
        '2'
    } else if d == 3 {
        '3'
    } else if d == 4 {
        '4'
    } else if d == 5 {
        '5'
    } else if d == 6 {
        '6'
    } else if d == 7 {
        '7'
    } else if d == 8 {
        '8'
    } else {
        '9'
    }
}

/// The digits of a positive integer, most significant first; empty for zero
/// and below.
pub open spec fn dec_digits_rec(n: int) -> Seq<char>
    decreases n,
{
    if n <= 0 {
        Seq::empty()
    } else {
        dec_digits_rec(n / 10).push(digit_char(n % 10))
    }
}

/// The decimal text of a non-negative integer, with no leading zeros and a
/// single `'0'` for zero.
pub open spec fn dec_str(n: int) -> Seq<char> {
    if n == 0 {
        seq!['0']
    } else {
        dec_digits_rec(n)
    }
}

/// The decimal text of an integer, with a leading minus sign when negative.
pub open spec fn signed_dec_str(v: int) -> Seq<char> {
    if v < 0 {
        seq!['-'] + dec_str(-v)
    } else {
        dec_str(v)
    }
}

/// The decimal text of a non-negative value counted in hundredths: the
/// integer part, a point, and exactly two fraction digits.
pub open spec fn fixed2_nonneg(v: int) -> Seq<char>
    recommends
        v >= 0,
{
    dec_str(v / 100) + seq!['.', digit_char((v % 100) / 10), digit_char(v % 10)]
}

/// The decimal text of a value counted in hundredths, signed.
pub open spec fn fixed2_str(v: int) -> Seq<char> {
    if v < 0 {
        seq!['-'] + fixed2_nonneg(-v)
    } else {
        fixed2_nonneg(v)
    }
}

/// The decimal text of a non-negative value counted in tenths: the integer
/// part, a point, and exactly one fraction digit.
pub open spec fn fixed1_nonneg(v: int) -> Seq<char>
    recommends
        v >= 0,
{
    dec_str(v / 10) + seq!['.', digit_char(v % 10)]
}

/// The decimal text of a value counted in tenths, signed.
pub open spec fn fixed1_str(v: int) -> Seq<char> {
    if v < 0 {
        seq!['-'] + fixed1_nonneg(-v)
    } else {
        fixed1_nonneg(v)
    }
}

/// Append the single ASCII digit for `d` to `s`.
fn push_digit(s: &mut String, d: u32)
    requires
        d < 10,
    ensures
        final(s)@ == old(s)@ + seq![digit_char(d as int)],
{
    proof {
        reveal_strlit("0");
        reveal_strlit("1");
        reveal_strlit("2");
        reveal_strlit("3");
        reveal_strlit("4");
        reveal_strlit("5");
        reveal_strlit("6");
        reveal_strlit("7");
        reveal_strlit("8");
        reveal_strlit("9");
    }
    match d {
        0 => s.append("0"),
        1 => s.append("1"),
        2 => s.append("2"),
        3 => s.append("3"),
        4 => s.append("4"),
        5 => s.append("5"),
        6 => s.append("6"),
        7 => s.append("7"),
        8 => s.append("8"),
        _ => s.append("9"),
    }
    proof {
        assert(final(s)@ =~= old(s)@ + seq![digit_char(d as int)]);
    }
}

/// Append the decimal text of `n` to `s`, most significant digit first.
pub fn push_u32_dec(s: &mut String, n: u32)
    ensures
        final(s)@ == old(s)@ + dec_str(n as int),
    decreases n,
{
    if n < 10 {
        push_digit(s, n);
        proof {
            assert(dec_digits_rec(n as int / 10) =~= Seq::<char>::empty());
            if n > 0 {
                assert(dec_digits_rec(n as int) =~= dec_digits_rec(n as int / 10).push(
                    digit_char(n as int % 10),
                ));
            }
            assert(dec_str(n as int) =~= seq![digit_char(n as int)]);
        }
    } else {
        push_u32_dec(s, n / 10);
        push_digit(s, n % 10);
        proof {
            assert((n / 10) as int == n as int / 10);
            assert((n % 10) as int == n as int % 10);
            assert(dec_str(n as int) =~= dec_str(n as int / 10).push(digit_char(n as int % 10)));
            assert(final(s)@ =~= old(s)@ + dec_str(n as int));
        }
    }
}

/// Append the signed decimal text of `v` to `s`.
pub fn push_i32_dec(s: &mut String, v: i32)
    requires
        v > i32::MIN,
    ensures
        final(s)@ == old(s)@ + signed_dec_str(v as int),
{
    if v < 0 {
        proof {
            reveal_strlit("-");
        }
        s.append("-");
        push_u32_dec(s, (-v) as u32);
        proof {
            assert("-"@ =~= seq!['-']);
            assert(final(s)@ =~= old(s)@ + signed_dec_str(v as int));
        }
    } else {
        push_u32_dec(s, v as u32);
    }
}

/// Append the two fraction digits of a value counted in hundredths.
fn push_frac2(s: &mut String, v: u32)
    ensures
        final(s)@ == old(s)@ + seq![
            '.',
            digit_char((v as int % 100) / 10),
            digit_char(v as int % 10),
        ],
{
    proof {
        reveal_strlit(".");
    }
    s.append(".");
    push_digit(s, (v % 100) / 10);
    push_digit(s, v % 10);
    proof {
        assert("."@ =~= seq!['.']);
        assert(((v % 100) / 10) as int == (v as int % 100) / 10);
        assert((v % 10) as int == v as int % 10);
        assert(final(s)@ =~= old(s)@ + seq![
            '.',
            digit_char((v as int % 100) / 10),
            digit_char(v as int % 10),
        ]);
    }
}

/// Append the text of a signed value counted in hundredths: integer part,
/// point, two fraction digits.
pub fn push_fixed2(s: &mut String, v: i32)
    requires
        v > i32::MIN,
    ensures
        final(s)@ == old(s)@ + fixed2_str(v as int),
{
    if v < 0 {
        proof {
            reveal_strlit("-");
        }
        s.append("-");
        let m: u32 = (-v) as u32;
        push_u32_dec(s, m / 100);
        push_frac2(s, m);
        proof {
            assert("-"@ =~= seq!['-']);
            assert((m / 100) as int == (-v) as int / 100);
            assert(final(s)@ =~= old(s)@ + fixed2_str(v as int));
        }
    } else {
        let m: u32 = v as u32;
        push_u32_dec(s, m / 100);
        push_frac2(s, m);
        proof {
            assert((m / 100) as int == v as int / 100);
            assert(final(s)@ =~= old(s)@ + fixed2_str(v as int));
        }
    }
}

/// Append the text of a signed value counted in tenths: integer part,
/// point, one fraction digit.
pub fn push_fixed1(s: &mut String, v: i32)
    requires
        v > i32::MIN,
    ensures
        final(s)@ == old(s)@ + fixed1_str(v as int),
{
    proof {
        reveal_strlit(".");
        reveal_strlit("-");
    }
    if v < 0 {
        s.append("-");
        let m: u32 = (-v) as u32;
        push_u32_dec(s, m / 10);
        s.append(".");
        push_digit(s, m % 10);
        proof {
            assert("-"@ =~= seq!['-']);
            assert("."@ =~= seq!['.']);
            assert(final(s)@ =~= old(s)@ + fixed1_str(v as int));
        }
    } else {
        let m: u32 = v as u32;
        push_u32_dec(s, m / 10);
        s.append(".");
        push_digit(s, m % 10);
        proof {
            assert("."@ =~= seq!['.']);
            assert(final(s)@ =~= old(s)@ + fixed1_str(v as int));
        }
    }
}

} // verus!
