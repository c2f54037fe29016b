//! Instants and what the calendar says of them.
//!
//! The calendar itself is that of the `chrono` crate. What it answers is not
//! proved here: the three functions at the end of this file state what is
//! taken on trust.

use vstd::prelude::*;

verus! {

/// The number of seconds in a day.
pub const SECONDS_PER_DAY: i64 = 86_400;

/// The number of nanoseconds in a second.
pub const NANOS_PER_SECOND: u32 = 1_000_000_000;

/// An instant of universal time: the seconds since the start of 1970, leap
/// seconds not counted, and the nanoseconds into that second.
#[derive(Debug, Clone, Copy, PartialEq, Eq, Structural)]
pub struct Timestamp {
    pub secs: i64,
    pub nanos: u32,
}

/// The number of the ISO 8601 week that holds the instant, as `chrono` counts
/// it; `None` where the instant lies outside the calendar.
pub uninterp spec fn iso_week_of(secs: i64, nanos: u32) -> Option<u32>;

/// The text that `chrono` writes for the instant in the given `strftime`
/// style; `None` where the instant lies outside the calendar or the style
/// cannot be formatted.
pub uninterp spec fn formatted_date(secs: i64, nanos: u32, style: Seq<char>) -> Option<Seq<char>>;

/// The instant lies within the calendar, on a whole or fractional second.
pub open spec fn on_calendar(secs: int, nanos: u32) -> bool {
    &&& i64::MIN <= secs <= i64::MAX
    &&& nanos < NANOS_PER_SECOND
    &&& iso_week_of(secs as i64, nanos) is Some
}

/// The current instant, read from the system clock by `chrono::Utc::now`.
/// Nothing is claimed of it.
#[verifier::external_body]
pub(crate) fn now() -> Timestamp {
    let now = chrono::Utc::now();
    Timestamp { secs: now.timestamp(), nanos: now.timestamp_subsec_nanos() }
}

/// The ISO week of an instant: `chrono::DateTime::from_timestamp`, then
/// `date_naive`, `iso_week` and `week`. The contract only names the answer.
#[verifier::external_body]
pub(crate) fn iso_week(secs: i64, nanos: u32) -> (week: Option<u32>)
    ensures
        week == iso_week_of(secs, nanos),
{
    match chrono::DateTime::from_timestamp(secs, nanos) {
        Some(instant) => Some(chrono::Datelike::iso_week(&instant.date_naive()).week()),
        None => None,
    }
}

/// An instant written in a `strftime` style: `chrono::DateTime::from_timestamp`,
/// then `format` and `write_to`. The contract only names the answer, and says
/// that there is none exactly where `chrono` gives none.
#[verifier::external_body]
pub(crate) fn format_date(secs: i64, nanos: u32, style: &str) -> (text: Option<String>)
    ensures
        text is Some <==> formatted_date(secs, nanos, style@) is Some,
        text matches Some(written) ==> formatted_date(secs, nanos, style@) == Some(written@),
{
    let instant = chrono::DateTime::from_timestamp(secs, nanos)?;
    let mut written = String::new();
    match instant.format(style).write_to(&mut written) {
        Ok(()) => Some(written),
        Err(_) => None,
    }
}

} // verus!
