//! Instants, and the parsing of an expiration date in one of the accepted formats.

use vstd::prelude::*;

use crate::error::AuthControllerError;
use crate::json::JsonValue;

verus! {

/// An instant, as nanoseconds since the Unix epoch, UTC.
#[derive(Debug, Clone, Copy, PartialEq, Eq, Structural)]
pub struct Timestamp {
    pub unix_nanos: i128,
}

/// What `time` reads from `text` as an RFC 3339 date-time, in Unix nanoseconds.
pub uninterp spec fn rfc3339_nanos(text: Seq<char>) -> Option<i128>;

/// What `time` reads from `text` as a date and time laid out as `layout`,
/// taken as UTC, in Unix nanoseconds.
pub uninterp spec fn datetime_nanos(text: Seq<char>, layout: Seq<char>) -> Option<i128>;

/// What `time` reads from `text` as a date laid out as `layout`, at UTC
/// midnight, in Unix nanoseconds.
pub uninterp spec fn date_nanos(text: Seq<char>, layout: Seq<char>) -> Option<i128>;

/// Relies on `time::OffsetDateTime::parse` with the `Rfc3339` description: the
/// instant read, if the whole text is an RFC 3339 date-time.
#[verifier::external_body]
fn parse_rfc3339(text: &str) -> (r: Option<i128>)
    ensures
        r == rfc3339_nanos(text@),
{
    time::OffsetDateTime::parse(text, &time::format_description::well_known::Rfc3339)
        .ok()
        .map(|d| d.unix_timestamp_nanos())
}

/// Relies on `time::PrimitiveDateTime::parse`, against the format description
/// `layout` (read by `time::format_description::parse_borrowed`), the result
/// taken as UTC.
#[verifier::external_body]
fn parse_datetime(text: &str, layout: &str) -> (r: Option<i128>)
    ensures
        r == datetime_nanos(text@, layout@),
{
    let items = time::format_description::parse_borrowed::<2>(layout).ok()?;
    time::PrimitiveDateTime::parse(text, &items).ok().map(|d| d.assume_utc().unix_timestamp_nanos())
}

/// Relies on `time::Date::parse`, against the format description `layout`
/// (read by `time::format_description::parse_borrowed`), the result taken as
/// midnight UTC.
#[verifier::external_body]
fn parse_date(text: &str, layout: &str) -> (r: Option<i128>)
    ensures
        r == date_nanos(text@, layout@),
{
    let items = time::format_description::parse_borrowed::<2>(layout).ok()?;
    time::Date::parse(text, &items).ok().map(|d| d.midnight().assume_utc().unix_timestamp_nanos())
}

/// Relies on `time::OffsetDateTime::now_utc`: the current wall-clock time.
/// Nothing is known of the value.
#[verifier::external_body]
pub(crate) fn now_utc() -> (r: Timestamp) {
    Timestamp { unix_nanos: time::OffsetDateTime::now_utc().unix_timestamp_nanos() }
}

pub open spec fn as_timestamp(n: Option<i128>) -> Option<Timestamp> {
    match n {
        Some(n) => Some(Timestamp { unix_nanos: n }),
        None => None,
    }
}

/// The instant that `text` denotes: the first of the accepted formats that
/// reads it wins (RFC 3339; date and time joined by `T`; date and time joined
/// by a space; date alone), the last three taken as UTC.
pub open spec fn instant_of(text: Seq<char>) -> Option<Timestamp> {
    if rfc3339_nanos(text) is Some {
        as_timestamp(rfc3339_nanos(text))
    } else if datetime_nanos(text, "[year]-[month]-[day]T[hour]:[minute]:[second]"@) is Some {
        as_timestamp(datetime_nanos(text, "[year]-[month]-[day]T[hour]:[minute]:[second]"@))
    } else if datetime_nanos(text, "[year]-[month]-[day] [hour]:[minute]:[second]"@) is Some {
        as_timestamp(datetime_nanos(text, "[year]-[month]-[day] [hour]:[minute]:[second]"@))
    } else {
        as_timestamp(date_nanos(text, "[year]-[month]-[day]"@))
    }
}

/// Reads an instant from `text` in the first accepted format that fits.
pub fn parse_instant(text: &str) -> (r: Option<Timestamp>)
    ensures
        r == instant_of(text@),
{
    if let Some(n) = parse_rfc3339(text) {
        return Some(Timestamp { unix_nanos: n });
    }
    if let Some(n) = parse_datetime(text, "[year]-[month]-[day]T[hour]:[minute]:[second]") {
        return Some(Timestamp { unix_nanos: n });
    }
    if let Some(n) = parse_datetime(text, "[year]-[month]-[day] [hour]:[minute]:[second]") {
        return Some(Timestamp { unix_nanos: n });
    }
    match parse_date(text, "[year]-[month]-[day]") {
        Some(n) => Some(Timestamp { unix_nanos: n }),
        None => None,
    }
}

/// The outcome of validating `value` as an expiration date when the clock
/// reads `now`: null means no expiration; a string must denote an instant
/// strictly after `now`; anything else is refused.
pub open spec fn expiration_at(value: JsonValue, now: Timestamp) -> Result<Option<Timestamp>, AuthControllerError> {
    match value {
        JsonValue::Null => Ok(None),
        JsonValue::String(s) => match instant_of(s@) {
            Some(t) => if t.unix_nanos > now.unix_nanos {
                Ok(Some(t))
            } else {
                Err(AuthControllerError::InvalidApiKeyExpiresAt(value))
            },
            None => Err(AuthControllerError::InvalidApiKeyExpiresAt(value)),
        },
        _ => Err(AuthControllerError::InvalidApiKeyExpiresAt(value)),
    }
}

/// Validates `value` as an expiration date, the clock reading `now`.
pub fn parse_expiration_date_at(value: JsonValue, now: Timestamp) -> (r: Result<Option<Timestamp>, AuthControllerError>)
    ensures
        r == expiration_at(value, now),
{
    let parsed = match &value {
        JsonValue::Null => return Ok(None),
        JsonValue::String(s) => parse_instant(s.as_str()),
        _ => None,
    };
    match parsed {
        Some(t) => if t.unix_nanos > now.unix_nanos {
            Ok(Some(t))
        } else {
            Err(AuthControllerError::InvalidApiKeyExpiresAt(value))
        },
        None => Err(AuthControllerError::InvalidApiKeyExpiresAt(value)),
    }
}

/// Validates `value` as an expiration date against the current time.
pub fn parse_expiration_date(value: JsonValue) -> (r: Result<Option<Timestamp>, AuthControllerError>)
    ensures
        exists|now: Timestamp| r == expiration_at(value, now),
{
    let now = now_utc();
    parse_expiration_date_at(value, now)
}

} // verus!
