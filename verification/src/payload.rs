//! Formatting of the forwarded output payload.
//!
//! The controller takes an ASCII line `"<register>=<temperature>"` with the
//! temperature printed to one decimal place. The temperature arrives in
//! centidegrees and is rounded to the nearest tenth of a degree, ties away
//! from zero.

use vstd::prelude::*;
use vstd::string::StringExecFns;

verus! {

/// The decimal digit `d` as a character.
pub open spec fn digit_char(d: int) -> char
    recommends
        0 <= d < 10,
{
    if d == 0 {
        '0'
    } else if d == 1 {
        '1'
    } else if d == 2 {
        '2'
    } else if d == 3 {
        '3'
    } else if d == 4 {
        '4'
    } else if d == 5 {
        '5'
    } else if d == 6 {
        '6'
    } else if d == 7 {
        '7'
    } else if d == 8 {
        '8'
    } else {
        '9'
    }
}

/// The usual decimal notation of `n`, most significant digit first, no sign
/// and no leading zero (a single `'0'` for zero).
pub open spec fn dec_digits(n: nat) -> Seq<char>
    decreases n,
{
    if n < 10 {
        seq![digit_char(n as int)]
    } else {
        dec_digits(n / 10) + seq![digit_char((n % 10) as int)]
    }
}

/// Centidegrees rounded to tenths of a degree: nearest tenth, ties away
/// from zero.
pub open spec fn round_tenths(centi: int) -> int {
    if centi >= 0 {
        (centi + 5) / 10
    } else {
        -((5 - centi) / 10)
    }
}

/// Tenths of a degree written with one decimal place, a leading `'-'` only
/// for negative values.
pub open spec fn tenths_chars(tenths: int) -> Seq<char> {
    if tenths < 0 {
        seq!['-'] + unsigned_tenths_chars(-tenths)
    } else {
        unsigned_tenths_chars(tenths)
    }
}

/// `t` tenths, `t >= 0`, as `<whole>.<tenth digit>`.
pub open spec fn unsigned_tenths_chars(t: int) -> Seq<char>
    recommends
        t >= 0,
{
    dec_digits((t / 10) as nat) + seq!['.'] + seq![digit_char(t % 10)]
}

/// The whole forwarded payload for a temperature in centidegrees: the
/// controller register tag, `'='`, and the rounded temperature.
pub open spec fn payload_chars(temp_centi: int) -> Seq<char> {
    "I10000="@ + tenths_chars(round_tenths(temp_centi))
}

/// The decimal digit `d` as a one-character string slice.
fn digit_str(d: u64) -> (r: &'static str)
    requires
        d < 10,
    ensures
        r@ == seq![digit_char(d as int)],
{
    proof {
        reveal_strlit("0");
        reveal_strlit("1");
        reveal_strlit("2");
        reveal_strlit("3");
        reveal_strlit("4");
        reveal_strlit("5");
        reveal_strlit("6");
        reveal_strlit("7");
        reveal_strlit("8");
        reveal_strlit("9");
    }
    let r: &'static str = if d == 0 {
        "0"
    } else if d == 1 {
        "1"
    } else if d == 2 {
        "2"
    } else if d == 3 {
        "3"
    } else if d == 4 {
        "4"
    } else if d == 5 {
        "5"
    } else if d == 6 {
        "6"
    } else if d == 7 {
        "7"
    } else if d == 8 {
        "8"
    } else {
        "9"
    };
    proof {
        assert(r@ =~= seq![digit_char(d as int)]);
    }
    r
}

/// Appends the decimal notation of `n`.
fn push_decimal(s: &mut String, n: u64)
    ensures
        final(s)@ == old(s)@ + dec_digits(n as nat),
    decreases n,
{
    if n < 10 {
        s.append(digit_str(n));
    } else {
        assert(n / 10 < n) by (nonlinear_arith)
            requires
                n >= 10,
        ;
        push_decimal(s, n / 10);
        s.append(digit_str(n % 10));
        proof {
            assert(old(s)@ + dec_digits((n / 10) as nat) + seq![
                digit_char((n % 10) as int),
            ] =~= old(s)@ + dec_digits(n as nat));
        }
    }
}

/// The forwarded payload for a temperature in centidegrees, exactly
/// `payload_chars`: register tag, `'='`, and the temperature rounded to the
/// nearest tenth of a degree, ties away from zero, with one decimal place.
pub fn format_payload(temp_centi: i64) -> (r: String)
    ensures
        r@ == payload_chars(temp_centi as int),
{
    let neg = temp_centi < 0;
    let mag: u64 = if temp_centi >= 0 {
        temp_centi as u64
    } else {
        (-(temp_centi as i128)) as u64
    };
    let tenths: u64 = (mag + 5) / 10;
    let whole: u64 = tenths / 10;
    let frac: u64 = tenths % 10;
    let mut s = String::new();
    s.append("I10000=");
    if neg && tenths > 0 {
        s.append("-");
    }
    push_decimal(&mut s, whole);
    s.append(".");
    s.append(digit_str(frac));
    proof {
        reveal_strlit("-");
        reveal_strlit(".");
        let rt = round_tenths(temp_centi as int);
        if neg {
            assert(rt == -((mag + 5) / 10));
        } else {
            assert(rt == (mag + 5) / 10);
        }
        if rt < 0 {
            assert(tenths_chars(rt) == seq!['-'] + unsigned_tenths_chars(tenths as int));
        } else {
            assert(rt == tenths);
            assert(tenths_chars(rt) == unsigned_tenths_chars(tenths as int));
        }
        assert(s@ =~= payload_chars(temp_centi as int));
    }
    s
}

} // verus!
