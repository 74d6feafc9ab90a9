//! Decimal rendering of the integer quantities the model stores.
//!
//! Weights and percentages are held in hundredths of a unit, so that the
//! arithmetic of the calculator stays exact; this module renders such a
//! value the way the application shows it: whole values without a decimal
//! point, fractional values with their natural one- or two-digit fraction.
//! It also renders the zero-padded `MM:SS` clock of the workout timer.

use vstd::prelude::*;

verus! {

/// The decimal digit character for `d` in `0..10`.
pub open spec fn dec_digit(d: int) -> char {
    if d == 0 {
        '0'
    } else if d == 1 {
        '1'
    } else if d == 2 {
        '2'
    } else if d == 3 {
        '3'
    } else if d == 4 {
        '4'
    } else if d == 5 {
        '5'
    } else if d == 6 {
        '6'
    } else if d == 7 {
        '7'
    } else if d == 8 {
        '8'
    } else {
        '9'
    }
}

/// Decimal digits of a non-negative integer, most significant first.
pub open spec fn dec_nat(n: int) -> Seq<char>
    decreases n,
{
    if n < 10 {
        seq![dec_digit(n)]
    } else {
        dec_nat(n / 10).push(dec_digit(n % 10))
    }
}

/// Decimal digits of an integer, with a leading minus sign when negative.
pub open spec fn dec_int(v: int) -> Seq<char> {
    if v < 0 {
        seq!['-'] + dec_nat(-v)
    } else {
        dec_nat(v)
    }
}

/// Quotient of truncating division, as Rust's `/` computes it on signed
/// integers.
pub open spec fn tdiv(a: int, b: int) -> int {
    if a >= 0 {
        a / b
    } else {
        -((-a) / b)
    }
}

/// Remainder of truncating division, as Rust's `%` computes it on signed
/// integers: the sign follows the dividend.
pub open spec fn tmod(a: int, b: int) -> int {
    if a >= 0 {
        a % b
    } else {
        -((-a) % b)
    }
}

/// Rendering of a value held in hundredths: the whole part, then a decimal
/// point and one or two fraction digits only where the fraction is not zero.
pub open spec fn dec_hundredths(v: int) -> Seq<char> {
    let a = if v < 0 {
        -v
    } else {
        v
    };
    let sign: Seq<char> = if v < 0 {
        seq!['-']
    } else {
        Seq::empty()
    };
    let whole = a / 100;
    let frac = a % 100;
    if frac == 0 {
        sign + dec_nat(whole)
    } else if frac % 10 == 0 {
        sign + dec_nat(whole) + seq!['.', dec_digit(frac / 10)]
    } else {
        sign + dec_nat(whole) + seq!['.', dec_digit(frac / 10), dec_digit(frac % 10)]
    }
}

/// A number rendered to exactly two places when it is a single digit,
/// as the timer clock shows minutes and seconds.
pub open spec fn two_digit(n: int) -> Seq<char> {
    if 0 <= n < 10 {
        seq!['0', dec_digit(n)]
    } else {
        dec_int(n)
    }
}

/// The `MM:SS` clock for `s` seconds: minutes are not capped, both fields
/// are zero-padded to two digits.
pub open spec fn duration_label(s: int) -> Seq<char> {
    two_digit(tdiv(s, 60)) + seq![':'] + two_digit(tmod(s, 60))
}

/// Whether `p` is a prefix of `m`.
pub open spec fn has_prefix(m: Seq<char>, p: Seq<char>) -> bool {
    m.len() >= p.len() && m.subrange(0, p.len() as int) == p
}

fn digit_str(d: u64) -> (r: &'static str)
    requires
        d < 10,
    ensures
        r@ == seq![dec_digit(d as int)],
{
    let r: &'static str = match d {
        0 => "0",
        1 => "1",
        2 => "2",
        3 => "3",
        4 => "4",
        5 => "5",
        6 => "6",
        7 => "7",
        8 => "8",
        _ => "9",
    };
    proof {
        reveal_strlit("0");
        reveal_strlit("1");
        reveal_strlit("2");
        reveal_strlit("3");
        reveal_strlit("4");
        reveal_strlit("5");
        reveal_strlit("6");
        reveal_strlit("7");
        reveal_strlit("8");
        reveal_strlit("9");
        assert(r@ =~= seq![dec_digit(d as int)]);
    }
    r
}

/// Renders a non-negative integer in decimal.
pub fn fmt_u64(n: u64) -> (r: String)
    ensures
        r@ == dec_nat(n as int),
    decreases n,
{
    if n < 10 {
        digit_str(n).to_owned()
    } else {
        let prefix = fmt_u64(n / 10);
        let r = prefix.concat(digit_str(n % 10));
        proof {
            assert(r@ =~= dec_nat(n as int));
        }
        r
    }
}

/// Renders a signed integer in decimal, with a minus sign when negative.
pub fn fmt_i64(v: i64) -> (r: String)
    ensures
        r@ == dec_int(v as int),
{
    if v >= 0 {
        fmt_u64(v as u64)
    } else {
        let m: u64 = (-(v as i128)) as u64;
        let digits = fmt_u64(m);
        let sign = "-".to_owned();
        proof {
            reveal_strlit("-");
            assert(sign@ =~= seq!['-']);
        }
        let r = sign.concat(digits.as_str());
        proof {
            assert(r@ =~= dec_int(v as int));
        }
        r
    }
}

/// Renders a value held in hundredths of a unit: `4500` as `45`, `250` as
/// `2.5`, `125` as `1.25`.
pub fn fmt_hundredths(v: i64) -> (r: String)
    ensures
        r@ == dec_hundredths(v as int),
{
    let a: u64 = if v >= 0 {
        v as u64
    } else {
        (-(v as i128)) as u64
    };
    let whole = fmt_u64(a / 100);
    let frac: u64 = a % 100;
    let unsigned: String = if frac == 0 {
        whole
    } else if frac % 10 == 0 {
        let dot = ".".to_owned();
        proof {
            reveal_strlit(".");
            assert(dot@ =~= seq!['.']);
        }
        whole.concat(dot.as_str()).concat(digit_str(frac / 10))
    } else {
        let dot = ".".to_owned();
        proof {
            reveal_strlit(".");
            assert(dot@ =~= seq!['.']);
        }
        whole.concat(dot.as_str()).concat(digit_str(frac / 10)).concat(digit_str(frac % 10))
    };
    let r: String = if v < 0 {
        let sign = "-".to_owned();
        proof {
            reveal_strlit("-");
            assert(sign@ =~= seq!['-']);
        }
        sign.concat(unsigned.as_str())
    } else {
        unsigned
    };
    proof {
        assert(r@ =~= dec_hundredths(v as int));
    }
    r
}

fn fmt_two_digit(v: i64) -> (r: String)
    ensures
        r@ == two_digit(v as int),
{
    if 0 <= v && v < 10 {
        let zero = "0".to_owned();
        proof {
            reveal_strlit("0");
            assert(zero@ =~= seq!['0']);
        }
        let r = zero.concat(digit_str(v as u64));
        proof {
            assert(r@ =~= two_digit(v as int));
        }
        r
    } else {
        fmt_i64(v)
    }
}

/// Renders `s` seconds as the `MM:SS` workout clock: `323` as `05:23`,
/// `3661` as `61:01`.
pub fn fmt_duration(s: i32) -> (r: String)
    ensures
        r@ == duration_label(s as int),
{
    let colon = ":".to_owned();
    proof {
        reveal_strlit(":");
        assert(colon@ =~= seq![':']);
    }
    let minutes: i64;
    let seconds: i64;
    if s >= 0 {
        minutes = ((s as u32) / 60) as i64;
        seconds = ((s as u32) % 60) as i64;
    } else {
        let a: u32 = (-(s as i64)) as u32;
        minutes = -(((a / 60) as i64));
        seconds = -(((a % 60) as i64));
    }
    proof {
        assert(minutes == tdiv(s as int, 60));
        assert(seconds == tmod(s as int, 60));
    }
    let r = fmt_two_digit(minutes).concat(colon.as_str()).concat(fmt_two_digit(seconds).as_str());
    proof {
        assert(r@ =~= duration_label(s as int));
    }
    r
}

} // verus!
