use vstd::prelude::*;
use chrono::{Datelike, Timelike};

verus! {

/// A timestamp normalized to UTC, held as plain calendar fields.
///
/// The export dialect writes timestamps with an explicit offset; every value
/// of this type is the corresponding instant after conversion to UTC.
#[derive(Clone, Copy, Debug, PartialEq, Eq, Structural)]
pub struct DateTimeUtc {
    pub year: i32,
    pub month: u8,
    pub day: u8,
    pub hour: u8,
    pub minute: u8,
    pub second: u8,
}

impl DeepView for DateTimeUtc {
    type V = DateTimeUtc;

    open spec fn deep_view(&self) -> DateTimeUtc {
        *self
    }
}

impl DateTimeUtc {
    /// Builds the timestamp for the given UTC calendar fields.
    pub fn new(year: i32, month: u8, day: u8, hour: u8, minute: u8, second: u8) -> (r:
        DateTimeUtc)
        ensures
            r == (DateTimeUtc { year, month, day, hour, minute, second }),
    {
        DateTimeUtc { year, month, day, hour, minute, second }
    }
}

/// What chrono's `DateTime::parse_from_str` yields for a text and a format,
/// normalized to UTC; `None` where the text does not match the format.
pub uninterp spec fn chrono_parse_of(s: Seq<char>, fmt: Seq<char>) -> Option<DateTimeUtc>;

/// What chrono's `DateTime::parse_from_rfc3339` yields for a text, normalized
/// to UTC; `None` where the text is not an RFC 3339 timestamp.
pub uninterp spec fn chrono_parse_rfc3339_of(s: Seq<char>) -> Option<DateTimeUtc>;

/// Relies on chrono's `DateTime::parse_from_str`, with `with_timezone(&Utc)`
/// and the `Datelike`/`Timelike` accessors converting the parsed instant to
/// plain UTC fields: the outcome depends on the text and the format alone.
#[verifier::external_body]
fn chrono_parse(s: &str, fmt: &str) -> (r: Option<DateTimeUtc>)
    ensures
        r == chrono_parse_of(s@, fmt@),
{
    match chrono::DateTime::parse_from_str(s, fmt) {
        Ok(dt) => {
            let u = dt.with_timezone(&chrono::Utc);
            let (year, month, day) = (u.year(), u.month() as u8, u.day() as u8);
            let (hour, minute, second) = (u.hour() as u8, u.minute() as u8, u.second() as u8);
            Some(DateTimeUtc { year, month, day, hour, minute, second })
        },
        Err(_) => None,
    }
}

/// Relies on chrono's `DateTime::parse_from_rfc3339`, with
/// `with_timezone(&Utc)` and the `Datelike`/`Timelike` accessors converting
/// the parsed instant to plain UTC fields: the outcome depends on the text
/// alone.
#[verifier::external_body]
fn chrono_parse_rfc3339(s: &str) -> (r: Option<DateTimeUtc>)
    ensures
        r == chrono_parse_rfc3339_of(s@),
{
    match chrono::DateTime::parse_from_rfc3339(s) {
        Ok(dt) => {
            let u = dt.with_timezone(&chrono::Utc);
            let (year, month, day) = (u.year(), u.month() as u8, u.day() as u8);
            let (hour, minute, second) = (u.hour() as u8, u.minute() as u8, u.second() as u8);
            Some(DateTimeUtc { year, month, day, hour, minute, second })
        },
        Err(_) => None,
    }
}

/// The datetime coercion rule: the three accepted textual forms, tried in
/// order — `"YYYY-MM-DD HH:MM:SS +HHMM"`, `"YYYY-MM-DDTHH:MM:SS+HHMM"`, then
/// RFC 3339 — each normalized to UTC; `None` where none of the three matches.
pub open spec fn spec_parse_datetime(s: Seq<char>) -> Option<DateTimeUtc> {
    if chrono_parse_of(s, "%Y-%m-%d %H:%M:%S %z"@) is Some {
        chrono_parse_of(s, "%Y-%m-%d %H:%M:%S %z"@)
    } else if chrono_parse_of(s, "%Y-%m-%dT%H:%M:%S%z"@) is Some {
        chrono_parse_of(s, "%Y-%m-%dT%H:%M:%S%z"@)
    } else {
        chrono_parse_rfc3339_of(s)
    }
}

/// Parses one datetime text, trying the three accepted forms in order.
pub fn parse_datetime(s: &str) -> (r: Option<DateTimeUtc>)
    ensures
        r == spec_parse_datetime(s@),
{
    if let Some(d) = chrono_parse(s, "%Y-%m-%d %H:%M:%S %z") {
        Some(d)
    } else if let Some(d) = chrono_parse(s, "%Y-%m-%dT%H:%M:%S%z") {
        Some(d)
    } else {
        chrono_parse_rfc3339(s)
    }
}

} // verus!
