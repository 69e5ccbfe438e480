//! Date and time texts exchanged with the other services.

use vstd::prelude::*;
use chrono::{Datelike, Timelike};

verus! {

/// A date and time without a time zone, from the `chrono` crate.
#[verifier::external_type_specification]
#[verifier::external_body]
pub struct ExNaiveDateTime(chrono::NaiveDateTime);

/// The error of a failed date parse, from the `chrono` crate.
#[verifier::external_type_specification]
#[verifier::external_body]
pub struct ExParseError(chrono::ParseError);

/// The RFC 3339 text, in UTC, of the instant that an RFC 3339 text
/// denotes; `None` when the text is not RFC 3339.
pub uninterp spec fn rfc3339_in_utc(value: Seq<char>) -> Option<Seq<char>>;

/// A date and time without a time zone, field by field, as `chrono`
/// reports them: the month and day count from one, the nanoseconds run
/// past a billion only within a leap second.
#[derive(Debug, Clone, Copy, PartialEq, Eq)]
pub struct ExpirationDate {
    pub year: i32,
    pub month: u32,
    pub day: u32,
    pub hour: u32,
    pub minute: u32,
    pub second: u32,
    pub nanosecond: u32,
}

/// The date and time that a text denotes in the form `%Y-%m-%d %H:%M:%S`
/// (`chrono::NaiveDateTime::parse_from_str`); `None` when the text is not
/// in that form or names no valid date and time.
pub uninterp spec fn expiration_fields(input: Seq<char>) -> Option<ExpirationDate>;

/// Whether an RFC 3339 text written by `chrono` starts with a digit: it
/// does exactly when its year lies in 0..=9999, which it writes with four
/// digits; other years it writes with a sign.
pub open spec fn starts_with_digit(t: Seq<char>) -> bool {
    t.len() > 0 && '0' <= t[0] <= '9'
}

/// Parses an RFC 3339 text with `chrono::DateTime::parse_from_rfc3339`,
/// moves it to UTC and writes it back with `to_rfc3339`; `None` when the
/// parse fails. The result depends on the text alone. A result whose year
/// is written with four digits is itself RFC 3339 in UTC: `to_rfc3339`
/// writes `%Y-%m-%dT%H:%M:%S`, the fraction it needs and `+00:00`, which
/// `parse_from_rfc3339` reads back as the same instant (a leap second as
/// `60` included).
#[verifier::external_body]
fn rfc3339_to_utc(value: &str) -> (r: Option<String>)
    ensures
        match r {
            Some(s) => rfc3339_in_utc(value@) == Some(s@),
            None => rfc3339_in_utc(value@) is None,
        },
        r matches Some(t) ==> (starts_with_digit(t@) ==> rfc3339_in_utc(t@) == Some(t@)),
{
    chrono::DateTime::parse_from_rfc3339(value).map(|dt| dt.with_timezone(&chrono::Utc).to_rfc3339()).ok()
}

/// Parses a text with `chrono::NaiveDateTime::parse_from_str` in the form
/// `%Y-%m-%d %H:%M:%S` and reads the date and time it yields field by
/// field (`Datelike`, `Timelike`). The result depends on the text alone.
#[verifier::external_body]
fn naive_from_expiration_text(input: &str) -> (r: Result<ExpirationDate, chrono::ParseError>)
    ensures
        match r {
            Ok(d) => expiration_fields(input@) == Some(d),
            Err(_) => expiration_fields(input@) is None,
        },
{
    match chrono::NaiveDateTime::parse_from_str(input, "%Y-%m-%d %H:%M:%S") {
        Ok(d) => Ok(ExpirationDate {
            year: d.year(),
            month: d.month(),
            day: d.day(),
            hour: d.hour(),
            minute: d.minute(),
            second: d.second(),
            nanosecond: d.nanosecond(),
        }),
        Err(e) => Err(e),
    }
}

/// The RFC 3339 text, in UTC, of a date received from another service;
/// `None` for an empty text or one that is not RFC 3339. The UTC text of a
/// date in years 0 to 9999 is its own UTC text, so reading it again gives
/// it back unchanged.
pub fn parse_datetime(value: &str) -> (r: Option<String>)
    ensures
        value@.len() == 0 ==> r is None,
        value@.len() != 0 ==> match r {
            Some(s) => rfc3339_in_utc(value@) == Some(s@),
            None => rfc3339_in_utc(value@) is None,
        },
        r matches Some(t) ==> (starts_with_digit(t@) ==> rfc3339_in_utc(t@) == Some(t@)),
{
    if value.is_empty() {
        None
    } else {
        rfc3339_to_utc(value)
    }
}

/// The expiration date of a token, written as `%Y-%m-%d %H:%M:%S`: the
/// date and time the text denotes, or the parser's error when it denotes
/// none.
pub fn parse_expiration_datetime(input: &str) -> (r: Result<ExpirationDate, chrono::ParseError>)
    ensures
        match r {
            Ok(d) => expiration_fields(input@) == Some(d),
            Err(_) => expiration_fields(input@) is None,
        },
{
    naive_from_expiration_text(input)
}

} // verus!
