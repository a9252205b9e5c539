//! Decimal rendering of fixed-point values for the display label.
//!
//! A pitch is held in thousandths of a unit; its label shows it as an
//! optional sign, the integer part, a point, and exactly three fractional
//! digits, e.g. `-12.300`.

use vstd::prelude::*;

verus! {

/// The decimal digit character for `d`.
pub open spec fn dec_digit(d: int) -> char {
    if d == 0 {
        '0'
    } else if d == 1 {
        '1'
    } else if d == 2 {
        '2'
    } else if d == 3 {
        '3'
    } else if d == 4 {
        '4'
    } else if d == 5 {
        '5'
    } else if d == 6 {
        '6'
    } else if d == 7 {
        '7'
    } else if d == 8 {
        '8'
    } else {
        '9'
    }
}

/// The ordinary decimal digits of `n`, most significant first, with no
/// leading zero except for `n == 0` itself.
pub open spec fn dec_rep(n: nat) -> Seq<char>
    decreases n,
{
    if n < 10 {
        seq![dec_digit(n as int)]
    } else {
        dec_rep(n / 10).push(dec_digit((n % 10) as int))
    }
}

/// A nonnegative fixed-point value `a`, in thousandths, as digits:
/// integer part, point, three fractional digits.
pub open spec fn fixed3_rep(a: nat) -> Seq<char> {
    dec_rep(a / 1000) + seq!['.'] + seq![
        dec_digit((a / 100) as int % 10),
        dec_digit((a / 10) as int % 10),
        dec_digit(a as int % 10),
    ]
}

/// A signed fixed-point value `v`, in thousandths, as digits with an
/// optional leading minus sign.
pub open spec fn signed_fixed3_rep(v: int) -> Seq<char> {
    if v < 0 {
        seq!['-'] + fixed3_rep((-v) as nat)
    } else {
        fixed3_rep(v as nat)
    }
}

/// The one-character string of the decimal digit `d`.
fn dec_digit_str(d: u64) -> (s: String)
    requires
        d < 10,
    ensures
        s@ =~= seq![dec_digit(d as int)],
{
    let lit: &str = if d == 0 {
        "0"
    } else if d == 1 {
        "1"
    } else if d == 2 {
        "2"
    } else if d == 3 {
        "3"
    } else if d == 4 {
        "4"
    } else if d == 5 {
        "5"
    } else if d == 6 {
        "6"
    } else if d == 7 {
        "7"
    } else if d == 8 {
        "8"
    } else {
        "9"
    };
    proof {
        reveal_strlit("0");
        reveal_strlit("1");
        reveal_strlit("2");
        reveal_strlit("3");
        reveal_strlit("4");
        reveal_strlit("5");
        reveal_strlit("6");
        reveal_strlit("7");
        reveal_strlit("8");
        reveal_strlit("9");
    }
    String::from_str(lit)
}

/// Renders `n` in ordinary decimal.
pub fn u64_to_dec(n: u64) -> (s: String)
    ensures
        s@ == dec_rep(n as nat),
    decreases n,
{
    if n < 10 {
        dec_digit_str(n)
    } else {
        let mut s = u64_to_dec(n / 10);
        let tail = dec_digit_str(n % 10);
        s.append(tail.as_str());
        proof {
            assert(s@ =~= dec_rep(n as nat));
        }
        s
    }
}

/// Renders the fixed-point value `v`, in thousandths, as sign, integer
/// part, point and three fractional digits.
pub fn fixed3_to_dec(v: i64) -> (s: String)
    ensures
        s@ == signed_fixed3_rep(v as int),
{
    let mut out = String::new();
    let a: u64 = if v < 0 {
        out.append("-");
        proof {
            reveal_strlit("-");
        }
        if v == i64::MIN {
            9223372036854775808u64
        } else {
            (-v) as u64
        }
    } else {
        v as u64
    };
    let int_part = u64_to_dec(a / 1000);
    out.append(int_part.as_str());
    out.append(".");
    let d2 = dec_digit_str(a / 100 % 10);
    out.append(d2.as_str());
    let d1 = dec_digit_str(a / 10 % 10);
    out.append(d1.as_str());
    let d0 = dec_digit_str(a % 10);
    out.append(d0.as_str());
    proof {
        reveal_strlit(".");
        assert((".")@ =~= seq!['.']);
        if v < 0 {
            assert(("-")@ =~= seq!['-']);
            assert(a as nat == (-(v as int)) as nat);
            assert(out@ =~= signed_fixed3_rep(v as int));
        } else {
            assert(out@ =~= signed_fixed3_rep(v as int));
        }
    }
    out
}

} // verus!
