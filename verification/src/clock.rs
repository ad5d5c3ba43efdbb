//! Times of day.

use vstd::prelude::*;

use crate::text::{cat2, cat3, decimal, decimal_text, padded, padded_decimal};

verus! {

/// Hours and minutes with two digits each.
pub open spec fn hhmm(hours: nat, minutes: nat) -> Seq<char> {
    padded_decimal(hours, 2) + ":"@ + padded_decimal(minutes, 2)
}

/// The time of day (UTC) at a time after the Unix epoch.
pub fn current_time_hhmm(unix_secs: u64) -> (r: String)
    ensures
        r@ == hhmm((unix_secs % 86400 / 3600) as nat, (unix_secs % 3600 / 60) as nat),
{
    let mut r = padded((unix_secs % 86400) / 3600, 2);
    r.append(":");
    r.append(padded((unix_secs % 3600) / 60, 2).as_str());
    r
}

/// A number with at least two places: a leading zero where it has one digit, or its sign.
pub open spec fn two_places(n: int) -> Seq<char> {
    if n < 0 {
        "-"@ + decimal_text((-n) as nat)
    } else {
        padded_decimal(n as nat, 2)
    }
}

/// Division that rounds towards zero.
pub open spec fn toward_zero(a: int, b: int) -> int {
    if a < 0 {
        -((-a) / b)
    } else {
        a / b
    }
}

/// The remainder of division that rounds towards zero; it has the sign of `a`.
pub open spec fn rest(a: int, b: int) -> int {
    a - b * toward_zero(a, b)
}

/// The time of day (UTC) of a stored message. Times before the Unix epoch count backwards.
pub open spec fn message_time_text(timestamp_ms: i64) -> Seq<char> {
    let secs = toward_zero(timestamp_ms as int, 1000);
    two_places(rest(toward_zero(secs, 3600), 24)) + ":"@ + two_places(
        rest(toward_zero(secs, 60), 60),
    )
}

/// A number of at most two digits with at least two places.
fn places(n: u64, negative: bool) -> (r: String)
    requires
        n < 100,
    ensures
        r@ == two_places(
            if negative {
                -(n as int)
            } else {
                n as int
            },
        ),
{
    if negative && n > 0 {
        cat2("-", decimal(n).as_str())
    } else {
        padded(n, 2)
    }
}

/// The time of day (UTC) of a stored message.
pub fn message_time(timestamp_ms: i64) -> (r: String)
    ensures
        r@ == message_time_text(timestamp_ms),
{
    let negative = timestamp_ms < 0;
    let magnitude: u64 = if timestamp_ms == i64::MIN {
        0x8000_0000_0000_0000u64
    } else if negative {
        (-timestamp_ms) as u64
    } else {
        timestamp_ms as u64
    };
    let secs: u64 = magnitude / 1000;
    let hours: u64 = (secs / 3600) % 24;
    let minutes: u64 = (secs / 60) % 60;
    let ghost s = toward_zero(timestamp_ms as int, 1000);
    assert(s == if negative {
        -(secs as int)
    } else {
        secs as int
    });
    assert(rest(toward_zero(s, 3600), 24) == if negative {
        -(hours as int)
    } else {
        hours as int
    });
    assert(rest(toward_zero(s, 60), 60) == if negative {
        -(minutes as int)
    } else {
        minutes as int
    });
    cat3(places(hours, negative).as_str(), ":", places(minutes, negative).as_str())
}

} // verus!
