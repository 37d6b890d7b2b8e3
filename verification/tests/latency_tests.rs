use member_info::latency::{api_latency, pong_text, shard_latency_text};
use member_info::text::signed_decimal_text;

#[test]
fn api_latency_counts_milliseconds() {
    assert_eq!(api_latency(10, 900, 12, 100), Some(1200));
    assert_eq!(api_latency(10, 100, 10, 350), Some(250));
    assert_eq!(api_latency(12, 100, 10, 900), Some(-1200));
    assert_eq!(api_latency(0, 0, 0, 0), Some(0));
}

#[test]
fn api_latency_that_does_not_fit_is_none() {
    assert_eq!(api_latency(i64::MIN, 0, i64::MAX, 0), None);
    assert_eq!(api_latency(0, 0, i64::MAX / 1000, 807), Some(i64::MAX));
    assert_eq!(api_latency(0, 0, i64::MAX / 1000, 808), None);
}

#[test]
fn shard_latency_in_backquotes() {
    assert_eq!(shard_latency_text(Some((0, 42_000_000))), "`42ms`");
    assert_eq!(shard_latency_text(Some((1, 500_999_999))), "`1500ms`");
    assert_eq!(shard_latency_text(Some((0, 0))), "`0ms`");
}

#[test]
fn shard_latency_without_data() {
    assert_eq!(shard_latency_text(None), "No data available yet.");
}

#[test]
fn shard_latency_out_of_range() {
    let sorry = "Could not get latency information... :(";
    assert_eq!(shard_latency_text(Some((u64::MAX, 0))), sorry);
    assert_eq!(shard_latency_text(Some((9_223_372_036_854_775, 807_000_001))), sorry);
    assert_eq!(shard_latency_text(Some((1, 1_000_000_000))), sorry);
    assert_eq!(
        shard_latency_text(Some((9_223_372_036_854_775, 807_000_000))),
        "`9223372036854775807ms`"
    );
}

#[test]
fn pong_text_names_both_latencies() {
    assert_eq!(
        pong_text(1200, "`42ms`"),
        "Pong! Succesfully retrieved the message and shard latencies. :ping_pong:\n\n**API Latency**: `1200ms`\n**Shard Latency**: `42ms`"
    );
    assert_eq!(
        pong_text(-5, "No data available yet."),
        "Pong! Succesfully retrieved the message and shard latencies. :ping_pong:\n\n**API Latency**: `-5ms`\n**Shard Latency**: No data available yet."
    );
}

#[test]
fn signed_decimal_text_values() {
    assert_eq!(signed_decimal_text(0), "0");
    assert_eq!(signed_decimal_text(-1), "-1");
    assert_eq!(signed_decimal_text(i64::MAX), "9223372036854775807");
    assert_eq!(signed_decimal_text(i64::MIN), "-9223372036854775808");
}
