//! Latency figures: how long a round trip to the platform took, and how a
//! shard's heartbeat latency reads.

use crate::text::{decimal, decimal_text, signed_decimal, signed_decimal_text};
use chrono::TimeDelta;
use std::time::Duration;
use vstd::prelude::*;
use vstd::string::*;

verus! {

/// The milliseconds from one instant to another, each given as whole seconds
/// and the milliseconds within the second.
pub open spec fn elapsed_millis(start_secs: int, start_millis: int, end_secs: int, end_millis: int) -> int {
    (end_secs - start_secs) * 1000 + (end_millis - start_millis)
}

/// The whole milliseconds of a duration of `secs` seconds and `nanos`
/// nanoseconds, where it is a proper duration of at most `i64::MAX`
/// milliseconds.
pub open spec fn whole_millis(secs: u64, nanos: u32) -> Option<int> {
    if nanos < 1_000_000_000 && (secs < 9_223_372_036_854_775 || (secs == 9_223_372_036_854_775
        && nanos <= 807_000_000)) {
        Some(secs * 1000 + nanos / 1_000_000)
    } else {
        None
    }
}

/// How a shard's latency reads. `None` stands for a shard that has not
/// measured one yet.
pub open spec fn shard_latency_shown(latency: Option<(u64, u32)>) -> Seq<char> {
    match latency {
        None => "No data available yet."@,
        Some(d) => match whole_millis(d.0, d.1) {
            Some(ms) => "`"@ + decimal(ms as nat) + "ms`"@,
            None => "Could not get latency information... :("@,
        },
    }
}

/// The text of the latency reply.
pub open spec fn pong_shown(api_millis: int, shard: Seq<char>) -> Seq<char> {
    "Pong! Succesfully retrieved the message and shard latencies. :ping_pong:\n\n**API Latency**: `"@
        + signed_decimal(api_millis) + "ms`\n**Shard Latency**: "@ + shard
}

/// Converts a duration with chrono's `TimeDelta::from_std` and reads it with
/// `TimeDelta::num_milliseconds`. chrono accepts a duration of at most
/// `i64::MAX` milliseconds and counts its whole milliseconds.
#[verifier::external_body]
fn duration_millis(secs: u64, nanos: u32) -> (r: Option<i64>)
    requires
        nanos < 1_000_000_000,
    ensures
        match r {
            Some(ms) => whole_millis(secs, nanos) == Some(ms as int),
            None => whole_millis(secs, nanos).is_none(),
        },
{
    match TimeDelta::from_std(Duration::new(secs, nanos)) {
        Ok(delta) => Some(delta.num_milliseconds()),
        Err(_) => None,
    }
}

/// The milliseconds that passed between two instants; none where the number
/// does not fit.
pub fn api_latency(start_secs: i64, start_millis: u32, end_secs: i64, end_millis: u32) -> (r:
    Option<i64>)
    ensures
        match r {
            Some(ms) => ms == elapsed_millis(
                start_secs as int,
                start_millis as int,
                end_secs as int,
                end_millis as int,
            ),
            None => {
                let ms = elapsed_millis(
                    start_secs as int,
                    start_millis as int,
                    end_secs as int,
                    end_millis as int,
                );
                ms < i64::MIN || ms > i64::MAX
            },
        },
{
    let whole: i128 = (end_secs as i128 - start_secs as i128) * 1000;
    let total: i128 = whole + (end_millis as i128 - start_millis as i128);
    if total < i64::MIN as i128 || total > i64::MAX as i128 {
        None
    } else {
        Some(total as i64)
    }
}

/// Writes a shard's latency: the milliseconds in backquotes, or the text
/// that says why there is no figure.
pub fn shard_latency_text(latency: Option<(u64, u32)>) -> (r: String)
    ensures
        r@ == shard_latency_shown(latency),
{
    match latency {
        None => String::from_str("No data available yet."),
        Some(d) => {
            if d.1 >= 1_000_000_000 {
                return String::from_str("Could not get latency information... :(");
            }
            match duration_millis(d.0, d.1) {
                Some(ms) => {
                    let mut out = String::from_str("`");
                    out.append(decimal_text(ms as u64).as_str());
                    out.append("ms`");
                    out
                },
                None => String::from_str("Could not get latency information... :("),
            }
        },
    }
}

/// Writes the latency reply from the round-trip time and the shard's
/// latency text.
pub fn pong_text(api_millis: i64, shard: &str) -> (r: String)
    ensures
        r@ == pong_shown(api_millis as int, shard@),
{
    let mut out = String::from_str(
        "Pong! Succesfully retrieved the message and shard latencies. :ping_pong:\n\n**API Latency**: `",
    );
    out.append(signed_decimal_text(api_millis).as_str());
    out.append("ms`\n**Shard Latency**: ");
    out.append(shard);
    out
}

} // verus!
