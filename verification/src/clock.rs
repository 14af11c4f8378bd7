//! The one place the library touches the machine's clock.

use vstd::prelude::*;
use vstd::arithmetic::div_mod::{lemma_div_is_ordered, lemma_div_multiples_vanish};

verus! {

/// Relies on `hifitime::Epoch::now` (the system clock read as a UTC epoch),
/// `Epoch::to_unix_duration` and `Duration::total_nanoseconds`: the value is
/// the clock's nanoseconds since the UNIX epoch. Nothing can be promised of
/// a clock reading; a clock that cannot be read yields `None`.
#[verifier::external_body]
fn clock_unix_nanos() -> (r: Option<i128>) {
    match hifitime::Epoch::now() {
        Ok(e) => Some(e.to_unix_duration().total_nanoseconds()),
        Err(_) => None,
    }
}

/// Nanoseconds as whole milliseconds, truncated toward zero.
pub open spec fn millis_of_nanos(ns: int) -> int {
    if ns >= 0 {
        ns / 1_000_000
    } else {
        -((-ns) / 1_000_000)
    }
}

/// Converts a nanosecond count to milliseconds, truncating toward zero:
/// exactly `millis_of_nanos`, or `None` exactly when that value does not
/// fit in an `i64`.
pub fn nanos_to_millis(ns: i128) -> (r: Option<i64>)
    ensures
        (match r {
            Some(ms) => ms == millis_of_nanos(ns as int),
            None => !(i64::MIN <= millis_of_nanos(ns as int) <= i64::MAX),
        }),
{
    if ns >= 0 {
        let ms: u128 = (ns as u128) / 1_000_000;
        if ms <= i64::MAX as u128 {
            Some(ms as i64)
        } else {
            None
        }
    } else if ns == i128::MIN {
        proof {
            let n = -(ns as int);
            let c: int = 0x1_0000_0000_0000_0000;
            lemma_div_multiples_vanish(c, 1_000_000);
            lemma_div_is_ordered(1_000_000 * c, n, 1_000_000);
            assert(n / 1_000_000 >= c);
        }
        None
    } else {
        let ms: u128 = ((-ns) as u128) / 1_000_000;
        if ms <= i64::MAX as u128 {
            Some(-(ms as i64))
        } else if ms == (i64::MAX as u128) + 1 {
            // The magnitude is exactly 2^63: the negated value is i64::MIN.
            Some(i64::MIN)
        } else {
            None
        }
    }
}

/// The machine's clock as a logical millisecond timestamp, or `None` when
/// the clock cannot be read or its value does not fit. Nothing is promised
/// of the value: callers must hold for every timestamp the clock may hand
/// them.
pub fn clock_now_millis() -> (r: Option<i64>) {
    match clock_unix_nanos() {
        Some(ns) => nanos_to_millis(ns),
        None => None,
    }
}

} // verus!
