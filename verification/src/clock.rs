use vstd::prelude::*;
use chrono::TimeZone;

verus! {

/// The instant an RFC 3339 string names, in milliseconds since the epoch, when
/// the string parses; a function of the string alone.
pub uninterp spec fn rfc3339_millis(s: Seq<char>) -> Option<i64>;

/// Relies on chrono's `DateTime::parse_from_rfc3339` and `timestamp_millis`:
/// the parsed instant in epoch milliseconds. RFC 3339 dates carry four-digit
/// years, so the instant stays well within three hundred thousand billion
/// milliseconds of the epoch.
#[verifier::external_body]
pub(crate) fn parse_rfc3339_millis(s: &str) -> (r: Option<i64>)
    ensures
        r == rfc3339_millis(s@),
        r matches Some(v) ==> -300000000000000000 <= v <= 300000000000000000,
{
    chrono::DateTime::parse_from_rfc3339(s).ok().map(|dt| dt.timestamp_millis())
}

/// Relies on chrono's `TimeZone::timestamp_millis_opt` for the local zone and
/// its `%H:%M:%S` formatting: a clock-of-day label of exactly eight
/// characters, or nothing when the instant falls outside chrono's range. The
/// text depends on the machine's time zone.
#[verifier::external_body]
pub(crate) fn format_clock_hms(ms: i64) -> (r: Option<String>)
    ensures
        r matches Some(s) ==> s@.len() == 8,
{
    chrono::Local.timestamp_millis_opt(ms).single().map(|dt| dt.format("%H:%M:%S").to_string())
}

/// Relies on the same chrono calls with `%m/%d/%Y, %I:%M:%S %p` formatting: a
/// full session-start label. The text depends on the machine's time zone.
#[verifier::external_body]
pub(crate) fn format_session_stamp(ms: i64) -> (r: Option<String>)
    ensures
        r matches Some(s) ==> s@.len() >= 23,
{
    chrono::Local.timestamp_millis_opt(ms).single().map(
        |dt| dt.format("%m/%d/%Y, %I:%M:%S %p").to_string(),
    )
}

} // verus!
