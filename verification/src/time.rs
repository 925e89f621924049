//! Millisecond timestamps and their calendar text.

use vstd::prelude::*;

verus! {

/// Whether a count of seconds, times a thousand, fits in an `i64`.
pub open spec fn secs_fit_ms(secs: int) -> bool {
    -9_223_372_036_854_775 <= secs <= 9_223_372_036_854_775
}

/// RFC 3339 text of a UTC instant given in milliseconds since the epoch,
/// when chrono can represent it.
pub uninterp spec fn spec_iso8601(ms: int) -> Option<Seq<char>>;

/// `DateTime::<Utc>::from_timestamp_millis(ms).map(|dt| dt.to_rfc3339())`,
/// named `spec_iso8601`.
#[verifier::external_body]
pub(crate) fn iso8601(ms: i64) -> (r: Option<String>)
    ensures
        match r {
            Some(s) => spec_iso8601(ms as int) == Some(s@),
            None => spec_iso8601(ms as int) is None,
        },
{
    chrono::DateTime::<chrono::Utc>::from_timestamp_millis(ms).map(|dt| dt.to_rfc3339())
}

/// The calendar text of an instant, or the empty text when there is none
/// (`unwrap_or_default`).
pub open spec fn iso8601_or_empty_spec(ms: int) -> Seq<char> {
    match spec_iso8601(ms) {
        Some(s) => s,
        None => Seq::<char>::empty(),
    }
}

/// The calendar text of an instant, or the empty text.
pub fn iso8601_or_empty(ms: i64) -> (r: String)
    ensures
        r@ == iso8601_or_empty_spec(ms as int),
{
    match iso8601(ms) {
        Some(s) => s,
        None => String::new(),
    }
}

/// Text `%Y-%m-%dT%H:%M:%S` of a UTC instant in milliseconds, when chrono
/// can represent it.
pub uninterp spec fn spec_ymdhms(ms: int) -> Option<Seq<char>>;

/// `DateTime::<Utc>::from_timestamp_millis(ms)` formatted with
/// `%Y-%m-%dT%H:%M:%S`, named `spec_ymdhms`.
#[verifier::external_body]
pub(crate) fn format_ymdhms(ms: i64) -> (r: Option<String>)
    ensures
        match r {
            Some(s) => spec_ymdhms(ms as int) == Some(s@),
            None => spec_ymdhms(ms as int) is None,
        },
{
    chrono::DateTime::<chrono::Utc>::from_timestamp_millis(ms).map(
        |dt| dt.format("%Y-%m-%dT%H:%M:%S").to_string(),
    )
}

/// The `%Y-%m-%dT%H:%M:%S` text of an instant, or the empty text.
pub open spec fn ymdhms_or_empty_spec(ms: int) -> Seq<char> {
    match spec_ymdhms(ms) {
        Some(s) => s,
        None => Seq::<char>::empty(),
    }
}

/// The `%Y-%m-%dT%H:%M:%S` text of an instant, or the empty text.
pub fn ymdhms_or_empty(ms: i64) -> (r: String)
    ensures
        r@ == ymdhms_or_empty_spec(ms as int),
{
    match format_ymdhms(ms) {
        Some(s) => s,
        None => String::new(),
    }
}

/// Milliseconds since the epoch of an RFC 3339 text, when chrono reads it.
pub uninterp spec fn spec_rfc3339_ms(s: Seq<char>) -> Option<int>;

/// `DateTime::parse_from_rfc3339(s).ok().map(|dt| dt.timestamp_millis())`,
/// named `spec_rfc3339_ms`.
#[verifier::external_body]
pub(crate) fn parse_rfc3339_ms(s: &str) -> (r: Option<i64>)
    ensures
        match r {
            Some(n) => spec_rfc3339_ms(s@) == Some(n as int),
            None => spec_rfc3339_ms(s@) is None,
        },
{
    chrono::DateTime::parse_from_rfc3339(s).ok().map(|dt| dt.timestamp_millis())
}

/// An optional RFC 3339 text read as milliseconds.
pub open spec fn opt_rfc3339_ms(o: Option<String>) -> Option<int> {
    match o {
        Some(s) => spec_rfc3339_ms(s@),
        None => None,
    }
}

/// Reads an optional RFC 3339 text as milliseconds.
pub fn parse_opt_rfc3339_ms(o: &Option<String>) -> (r: Option<i64>)
    ensures
        match r {
            Some(n) => opt_rfc3339_ms(*o) == Some(n as int),
            None => opt_rfc3339_ms(*o) is None,
        },
{
    match o {
        Some(s) => parse_rfc3339_ms(s.as_str()),
        None => None,
    }
}

} // verus!
