use furse::error::Error;
use furse::timestamp::{parse_timestamp_lenient, parse_timestamp_strict, Timestamp};

fn ts(year: i32, month: u8, day: u8, hour: u8, minute: u8, second: u8) -> Timestamp {
    Timestamp { year, month, day, hour, minute, second, nanosecond: 0 }
}

#[test]
fn lenient_accepts_compliant_rfc3339() {
    let t = parse_timestamp_lenient("2024-01-02T03:04:05Z").unwrap();
    assert_eq!(t, ts(2024, 1, 2, 3, 4, 5));
}

#[test]
fn lenient_accepts_missing_utc_designator_via_retry() {
    let t = parse_timestamp_lenient("0001-01-01T00:00:00").unwrap();
    assert_eq!(t, ts(1, 1, 1, 0, 0, 0));
}

#[test]
fn lenient_rejects_malformed_text_on_both_attempts() {
    let r = parse_timestamp_lenient("not-a-date");
    assert!(matches!(r, Err(Error::DecodeError { .. })));
}

#[test]
fn strict_rejects_missing_utc_designator() {
    let r = parse_timestamp_strict("0001-01-01T00:00:00");
    assert!(matches!(r, Err(Error::DecodeError { .. })));
}

#[test]
fn strict_accepts_compliant_rfc3339() {
    let t = parse_timestamp_strict("2021-11-05T10:11:12Z").unwrap();
    assert_eq!(t, ts(2021, 11, 5, 10, 11, 12));
}

#[test]
fn offset_is_normalized_to_utc() {
    let t = parse_timestamp_lenient("2024-01-02T03:04:05+02:00").unwrap();
    assert_eq!(t, ts(2024, 1, 2, 1, 4, 5));
}

#[test]
fn retry_does_not_mask_trailing_garbage() {
    let r = parse_timestamp_lenient("2024-01-02T03:04:05ZZ");
    assert!(matches!(r, Err(Error::DecodeError { .. })));
}
