//! Time-window rules.
//!
//! Rental windows are named by ISO-8601 (RFC 3339) strings. The core reads
//! two things out of such a string: the instant it denotes (seconds since
//! the Unix epoch, for expiry comparisons against the ledger clock) and its
//! minute-of-hour (rental windows may only start on the hour or on the half
//! hour). Parsing and rendering are delegated to the chrono crate.

use vstd::prelude::*;

verus! {

/// What the core reads out of a parsed RFC 3339 string.
#[derive(Clone, Copy, Debug, PartialEq, Eq, Structural)]
pub struct ParsedTime {
    /// The denoted instant, in seconds since the Unix epoch.
    pub timestamp: i64,
    /// The minute-of-hour of the written (offset-local) time.
    pub minute: u32,
}

/// The instant and minute-of-hour denoted by an RFC 3339 string, or `None`
/// where the string is not a valid RFC 3339 date-time.
pub uninterp spec fn spec_parse_rfc3339(s: Seq<char>) -> Option<ParsedTime>;

/// The RFC 3339 rendering of a valid RFC 3339 string's instant moved
/// thirty minutes forward, or `None` where the string does not parse or
/// the moved instant is out of chrono's date range.
pub uninterp spec fn spec_plus_thirty_minutes(s: Seq<char>) -> Option<Seq<char>>;

/// Relies on chrono's `DateTime::parse_from_rfc3339`, `DateTime::timestamp`
/// and `Timelike::minute`: the result is a function of the characters
/// alone, and a minute-of-hour is below 60.
#[verifier::external_body]
pub(crate) fn parse_rfc3339(s: &str) -> (r: Option<ParsedTime>)
    ensures
        r == spec_parse_rfc3339(s@),
        r matches Some(p) ==> p.minute < 60,
{
    match chrono::DateTime::parse_from_rfc3339(s) {
        Ok(dt) => Some(ParsedTime { timestamp: dt.timestamp(), minute: chrono::Timelike::minute(&dt) }),
        Err(_) => None,
    }
}

/// Relies on chrono's `DateTime::checked_add_signed`, `TimeDelta::minutes`
/// and `DateTime::to_rfc3339`: adding thirty minutes moves the denoted
/// instant by exactly 1800 seconds and keeps the offset, so wherever the
/// rendering parses again it denotes the moved instant, thirty
/// minutes-of-hour later.
#[verifier::external_body]
pub(crate) fn add_thirty_minutes(s: &str) -> (r: Option<String>)
    ensures
        (match r {
            Some(t) => spec_plus_thirty_minutes(s@) == Some(t@),
            None => spec_plus_thirty_minutes(s@) is None,
        }),
        spec_parse_rfc3339(s@) is None ==> r is None,
        r matches Some(t) ==> ({
            &&& spec_parse_rfc3339(s@) matches Some(p)
            &&& p.timestamp + 1800 <= i64::MAX
            &&& (spec_parse_rfc3339(t@) matches Some(q) ==> {
                &&& q.timestamp == p.timestamp + 1800
                &&& q.minute == (p.minute + 30) % 60
            })
        }),
{
    let dt = match chrono::DateTime::parse_from_rfc3339(s) {
        Ok(dt) => dt,
        Err(_) => return None,
    };
    dt.checked_add_signed(chrono::TimeDelta::minutes(30)).map(|later| later.to_rfc3339())
}

/// Whether a window may start at this minute-of-hour: rentals begin only on
/// the hour or on the half hour.
pub open spec fn spec_minute_aligned(minute: u32) -> bool {
    minute == 0 || minute == 30
}

/// Checks that a window starts on the hour or on the half hour.
pub fn minute_aligned(minute: u32) -> (r: bool)
    ensures
        r == spec_minute_aligned(minute),
{
    minute == 0 || minute == 30
}

} // verus!
