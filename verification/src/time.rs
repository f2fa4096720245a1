//! Instants as the registry keeps them: whole seconds since the first of
//! January 1970, 0:00 UTC, and the nanoseconds into that second.

use vstd::prelude::*;

verus! {

/// The number of seconds in a day.
pub const SECONDS_PER_DAY: i64 = 86_400;

/// An instant in UTC.
#[derive(Debug, Clone, Copy, PartialEq, Eq, Structural)]
pub struct Timestamp {
    /// Whole seconds since 1970-01-01 0:00:00 UTC, leap seconds not counted.
    pub secs: i64,
    /// Nanoseconds since the start of that second.
    pub nanos: u32,
}

impl Timestamp {
    /// The calendar day of the instant in UTC, counted in days since
    /// 1970-01-01.
    pub open spec fn day(self) -> int {
        self.secs as int / 86_400
    }

    /// Whether the calendar day of `self` is the day of `other` or a later one.
    pub open spec fn spec_on_or_after_day_of(self, other: Timestamp) -> bool {
        self.day() >= other.day()
    }

    /// The calendar day of the instant in UTC, counted in days since
    /// 1970-01-01; days before that have negative numbers.
    pub fn day_number(&self) -> (d: i64)
        ensures
            d == self.day(),
    {
        if self.secs >= 0 {
            self.secs / SECONDS_PER_DAY
        } else {
            // For a negative count the quotient is rounded towards the earlier day.
            let back: i64 = -(self.secs + 1);
            -(back / SECONDS_PER_DAY) - 1
        }
    }

    /// Whether the calendar day of `self` is the day of `other` or a later one.
    pub fn on_or_after_day_of(&self, other: &Timestamp) -> (r: bool)
        ensures
            r == self.spec_on_or_after_day_of(*other),
    {
        self.day_number() >= other.day_number()
    }
}

/// The instant that an RFC 3339 date-and-time string writes, if it is one.
pub uninterp spec fn spec_parse_rfc3339(s: Seq<char>) -> Option<Timestamp>;

/// `chrono::DateTime::parse_from_rfc3339`, with the instant it returns taken
/// as seconds (`timestamp`) and nanoseconds (`timestamp_subsec_nanos`). The
/// contract only names the result: the same characters always parse to the
/// same instant, or always fail.
#[verifier::external_body]
pub(crate) fn parse_rfc3339(s: &str) -> (r: Option<Timestamp>)
    ensures
        r == spec_parse_rfc3339(s@),
{
    match chrono::DateTime::parse_from_rfc3339(s) {
        Ok(at) => Some(Timestamp { secs: at.timestamp(), nanos: at.timestamp_subsec_nanos() }),
        Err(_) => None,
    }
}

/// `chrono::Utc::now`, taken as seconds (`timestamp`) and nanoseconds
/// (`timestamp_subsec_nanos`). Nothing is claimed of the instant: it is
/// whatever the clock of the machine says.
#[verifier::external_body]
pub(crate) fn now() -> Timestamp {
    let at = chrono::Utc::now();
    Timestamp { secs: at.timestamp(), nanos: at.timestamp_subsec_nanos() }
}

} // verus!
