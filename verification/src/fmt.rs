//! Decimal and clock-time formatting, verified against an exact
//! character-sequence model of the output.

use vstd::prelude::*;
use crate::text::str_eq;

verus! {

/// The decimal digit character for `d` in `0..10`.
pub open spec fn spec_digit(d: int) -> char {
    if d == 0 {
        '0'
    } else if d == 1 {
        '1'
    } else if d == 2 {
        '2'
    } else if d == 3 {
        '3'
    } else if d == 4 {
        '4'
    } else if d == 5 {
        '5'
    } else if d == 6 {
        '6'
    } else if d == 7 {
        '7'
    } else if d == 8 {
        '8'
    } else {
        '9'
    }
}

/// The decimal digits of a nonnegative number, most significant first,
/// with no leading zeros (a single zero for 0).
pub open spec fn spec_digits(n: nat) -> Seq<char>
    decreases n,
{
    if n < 10 {
        seq![spec_digit(n as int)]
    } else {
        spec_digits(n / 10) + seq![spec_digit((n % 10) as int)]
    }
}

/// The decimal rendering of a signed number.
pub open spec fn spec_int_string(v: int) -> Seq<char> {
    if v < 0 {
        seq!['-'] + spec_digits((-v) as nat)
    } else {
        spec_digits(v as nat)
    }
}

/// The zero-padding rule: under the `"00"` format, values below 10 get
/// one leading zero (negative values included, which keeps the quirk
/// that the zero lands before the sign).
pub open spec fn spec_format_number(v: int, format: Seq<char>) -> Seq<char> {
    if format == "00"@ && v < 10 {
        seq!['0'] + spec_int_string(v)
    } else {
        spec_int_string(v)
    }
}

/// Truncating division (the quotient is rounded towards zero).
pub open spec fn div_trunc(a: int, b: int) -> int {
    if a >= 0 {
        a / b
    } else {
        -((-a) / b)
    }
}

/// The remainder matching [`div_trunc`]: it carries the dividend's sign.
pub open spec fn rem_trunc(a: int, b: int) -> int {
    a - b * div_trunc(a, b)
}

/// A clock rendering of minutes since midnight: zero-padded hours,
/// a colon, zero-padded minutes.
pub open spec fn spec_format_time(minutes: int) -> Seq<char> {
    spec_format_number(div_trunc(minutes, 60), "00"@) + seq![':'] + spec_format_number(
        rem_trunc(minutes, 60),
        "00"@,
    )
}

/// One digit as a string slice.
fn digit_str(d: u64) -> (r: &'static str)
    requires
        d < 10,
    ensures
        r@ == seq![spec_digit(d as int)],
{
    proof {
        reveal_strlit("0");
        reveal_strlit("1");
        reveal_strlit("2");
        reveal_strlit("3");
        reveal_strlit("4");
        reveal_strlit("5");
        reveal_strlit("6");
        reveal_strlit("7");
        reveal_strlit("8");
        reveal_strlit("9");
    }
    let r = if d == 0 {
        "0"
    } else if d == 1 {
        "1"
    } else if d == 2 {
        "2"
    } else if d == 3 {
        "3"
    } else if d == 4 {
        "4"
    } else if d == 5 {
        "5"
    } else if d == 6 {
        "6"
    } else if d == 7 {
        "7"
    } else if d == 8 {
        "8"
    } else {
        "9"
    };
    proof {
        assert(r@ =~= seq![spec_digit(d as int)]);
    }
    r
}

/// The decimal digits of `n`, most significant first.
fn digits_u64(n: u64) -> (s: String)
    ensures
        s@ == spec_digits(n as nat),
    decreases n,
{
    if n < 10 {
        String::from_str(digit_str(n))
    } else {
        let rest = digits_u64(n / 10);
        rest.concat(digit_str(n % 10))
    }
}

/// The decimal rendering of `v`.
fn int_string(v: i64) -> (s: String)
    requires
        v > i64::MIN,
    ensures
        s@ == spec_int_string(v as int),
{
    if v < 0 {
        proof {
            reveal_strlit("-");
        }
        let sign = String::from_str("-");
        let s = sign.concat(digits_u64((-v) as u64).as_str());
        proof {
            assert(s@ =~= spec_int_string(v as int));
        }
        s
    } else {
        digits_u64(v as u64)
    }
}

/// Renders a number, zero-padding values under 10 when the format
/// string is `"00"`.
pub fn format_number(value: i32, format: &str) -> (s: String)
    ensures
        s@ == spec_format_number(value as int, format@),
{
    let base = int_string(value as i64);
    if str_eq(format, "00") && value < 10 {
        proof {
            reveal_strlit("0");
        }
        let s = String::from_str("0").concat(base.as_str());
        proof {
            assert(s@ =~= spec_format_number(value as int, format@));
        }
        s
    } else {
        base
    }
}

/// Renders minutes since midnight as zero-padded `hours:minutes`.
pub fn format_time(minutes: i32) -> (s: String)
    requires
        minutes > i32::MIN,
    ensures
        s@ == spec_format_time(minutes as int),
{
    let (h, m): (i32, i32) = if minutes >= 0 {
        let mu = minutes as u32;
        ((mu / 60) as i32, (mu % 60) as i32)
    } else {
        let mu = (-minutes) as u32;
        (-((mu / 60) as i32), -((mu % 60) as i32))
    };
    proof {
        assert(h as int == div_trunc(minutes as int, 60));
        assert(m as int == rem_trunc(minutes as int, 60));
        reveal_strlit(":");
    }
    let s = format_number(h, "00").concat(":").concat(format_number(m, "00").as_str());
    proof {
        assert(s@ =~= spec_format_time(minutes as int));
    }
    s
}

} // verus!
