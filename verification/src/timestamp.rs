//! Timestamps, and the lenient parser for the one remote field that
//! sometimes omits its UTC designator.

use vstd::prelude::*;
use vstd::string::StringExecFns;
use crate::error::Error;
use chrono::{Datelike, Timelike};

verus! {

/// An instant in UTC, held as plain calendar fields.
#[derive(Debug, Clone, Copy, PartialEq, Eq, Structural)]
pub struct Timestamp {
    pub year: i32,
    pub month: u8,
    pub day: u8,
    pub hour: u8,
    pub minute: u8,
    pub second: u8,
    pub nanosecond: u32,
}

/// The instant, in UTC calendar fields (year, month, day, hour, minute,
/// second, nanosecond), that the RFC 3339 parser yields for this text, or
/// `None` where the text is not a valid RFC 3339 date-time.
pub uninterp spec fn rfc3339_instant(s: Seq<char>) -> Option<(int, int, int, int, int, int, int)>;

/// The parsed UTC instant of `s` as a `Timestamp`, if `s` is valid RFC 3339.
pub open spec fn parsed_utc(s: Seq<char>) -> Option<Timestamp> {
    match rfc3339_instant(s) {
        Some(t) => Some(
            Timestamp {
                year: t.0 as i32,
                month: t.1 as u8,
                day: t.2 as u8,
                hour: t.3 as u8,
                minute: t.4 as u8,
                second: t.5 as u8,
                nanosecond: t.6 as u32,
            },
        ),
        None => None,
    }
}

/// The two-step lenient reading: the text as given, then, if that fails, the
/// text with a literal UTC suffix appended. Both attempts are full RFC 3339
/// validation; the retry does not mask genuinely malformed input.
pub open spec fn lenient_utc(s: Seq<char>) -> Option<Timestamp> {
    match parsed_utc(s) {
        Some(t) => Some(t),
        None => parsed_utc(s.push('Z')),
    }
}

/// Relies on chrono's `DateTime::parse_from_rfc3339` followed by conversion
/// to `Utc`: full RFC 3339 validation, and the instant returned is a function
/// of the text alone.
#[verifier::external_body]
fn parse_rfc3339_utc(s: &str) -> (r: Option<Timestamp>)
    ensures
        r == parsed_utc(s@),
        (r is Some) == (rfc3339_instant(s@) is Some),
{
    match chrono::DateTime::parse_from_rfc3339(s) {
        Ok(t) => {
            let t = t.with_timezone(&chrono::Utc);
            Some(Timestamp {
                year: t.year(),
                month: t.month() as u8,
                day: t.day() as u8,
                hour: t.hour() as u8,
                minute: t.minute() as u8,
                second: t.second() as u8,
                nanosecond: t.nanosecond(),
            })
        }
        Err(_) => None,
    }
}

/// Parses a strict-format timestamp field: plain RFC 3339, no fallback.
pub fn parse_timestamp_strict(s: &str) -> (r: Result<Timestamp, Error>)
    ensures
        match r {
            Ok(t) => parsed_utc(s@) == Some(t),
            Err(e) => parsed_utc(s@) is None && e matches Error::DecodeError { .. },
        },
{
    match parse_rfc3339_utc(s) {
        Some(t) => Ok(t),
        None => Err(
            Error::DecodeError {
                detail: String::from_str("timestamp is not valid RFC 3339: ").concat(s),
            },
        ),
    }
}

/// Parses a lenient timestamp field: RFC 3339 first and, if that fails, one
/// retry with a literal UTC suffix appended; a failure of both attempts is a
/// decode error carrying the original text.
pub fn parse_timestamp_lenient(s: &str) -> (r: Result<Timestamp, Error>)
    ensures
        match r {
            Ok(t) => lenient_utc(s@) == Some(t),
            Err(e) => lenient_utc(s@) is None && e matches Error::DecodeError { .. },
        },
{
    match parse_rfc3339_utc(s) {
        Some(t) => Ok(t),
        None => {
            let mut retry = s.to_owned();
            crate::strings::push_char(&mut retry, 'Z');
            match parse_rfc3339_utc(retry.as_str()) {
                Some(t) => Ok(t),
                None => Err(
                    Error::DecodeError {
                        detail: String::from_str("timestamp failed both parse attempts: ").concat(
                            s,
                        ),
                    },
                ),
            }
        }
    }
}

/// A strict-format timestamp field: a string field holding valid RFC 3339.
pub open spec fn field_date_strict(o: Seq<(Seq<char>, crate::json::JsonV)>, k: Seq<char>) -> Option<
    Timestamp,
> {
    match crate::json::field_str(o, k) {
        Some(s) => parsed_utc(s),
        None => None,
    }
}

/// A lenient timestamp field: a string field read by the two-step parser.
pub open spec fn field_date_lenient(
    o: Seq<(Seq<char>, crate::json::JsonV)>,
    k: Seq<char>,
) -> Option<Timestamp> {
    match crate::json::field_str(o, k) {
        Some(s) => lenient_utc(s),
        None => None,
    }
}

/// Reads a strict-format timestamp field.
pub fn get_date_strict(entries: &Vec<(String, crate::json::Json)>, key: &str) -> (r: Result<
    Timestamp,
    Error,
>)
    ensures
        match r {
            Ok(t) => field_date_strict(crate::json::obj_jv(entries@), key@) == Some(t),
            Err(e) => field_date_strict(crate::json::obj_jv(entries@), key@) is None
                && e matches Error::DecodeError { .. },
        },
{
    match crate::json::get_str(entries, key) {
        Some(s) => parse_timestamp_strict(s.as_str()),
        None => Err(Error::decode("missing or mistyped timestamp field")),
    }
}

/// Reads a lenient timestamp field.
pub fn get_date_lenient(entries: &Vec<(String, crate::json::Json)>, key: &str) -> (r: Result<
    Timestamp,
    Error,
>)
    ensures
        match r {
            Ok(t) => field_date_lenient(crate::json::obj_jv(entries@), key@) == Some(t),
            Err(e) => field_date_lenient(crate::json::obj_jv(entries@), key@) is None
                && e matches Error::DecodeError { .. },
        },
{
    match crate::json::get_str(entries, key) {
        Some(s) => parse_timestamp_lenient(s.as_str()),
        None => Err(Error::decode("missing or mistyped timestamp field")),
    }
}

} // verus!
