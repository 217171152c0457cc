//! Date-time parsing and formatting, relied on from chrono.
//!
//! The rest of the library works on plain millisecond timestamps; only the
//! translation between text and timestamps goes through chrono, behind the
//! trusted wrappers here. Both directions are functions of their argument
//! alone, so each result is given a name that the wrappers' contracts and
//! their callers' contracts share.

use vstd::prelude::*;

verus! {

/// The UTC timestamp, in milliseconds, that a date-time string denotes, or
/// `None` where the string does not parse as a UTC date-time.
pub uninterp spec fn utc_parse_millis(s: Seq<char>) -> Option<i64>;

/// The canonical text of a UTC millisecond timestamp.
pub uninterp spec fn utc_display_millis(ms: i64) -> Seq<char>;

/// Relies on chrono's `FromStr` for `DateTime<Utc>`: whether a string parses,
/// and to which instant, depends on the string alone.
#[verifier::external_body]
pub fn parse_utc_date(s: &str) -> (r: Option<i64>)
    ensures
        r == utc_parse_millis(s@),
{
    match s.parse::<chrono::DateTime<chrono::Utc>>() {
        Ok(d) => Some(d.timestamp_millis()),
        Err(_) => None,
    }
}

/// Relies on chrono's `Display` for `DateTime<Utc>`: the text depends on the
/// timestamp alone. A timestamp outside chrono's representable range renders
/// as the empty string.
#[verifier::external_body]
pub fn format_utc_date(ms: i64) -> (r: String)
    ensures
        r@ == utc_display_millis(ms),
{
    match chrono::DateTime::<chrono::Utc>::from_timestamp_millis(ms) {
        Some(d) => d.to_string(),
        None => String::new(),
    }
}

/// Relies on chrono's `Utc::now`. Nothing is assumed of the clock's reading.
#[verifier::external_body]
pub fn now_millis() -> i64 {
    chrono::Utc::now().timestamp_millis()
}

} // verus!
