//! Instants as plain numbers, and the clock.

use crate::text::text_of;
use vstd::prelude::*;

verus! {

/// A point in time: whole seconds since the Unix epoch and the nanoseconds
/// that follow them.
#[derive(Clone, Copy, Debug, PartialEq, Eq, Structural)]
pub struct Timestamp {
    pub secs: i64,
    pub nanos: u32,
}

impl Timestamp {
    /// Strictly earlier than `other`: seconds decide, nanoseconds break a tie.
    pub open spec fn before(self, other: Timestamp) -> bool {
        self.secs < other.secs || (self.secs == other.secs && self.nanos < other.nanos)
    }

    /// What a running clock hands out: not before the epoch and with the
    /// nanoseconds short of a full second.
    pub open spec fn is_clock_reading(self) -> bool {
        self.secs >= 0 && self.nanos < 1_000_000_000
    }

    /// The instant `nanos` nanoseconds after second `secs`.
    pub fn new(secs: i64, nanos: u32) -> (t: Timestamp)
        ensures
            t.secs == secs,
            t.nanos == nanos,
    {
        Timestamp { secs, nanos }
    }

    /// Whether this instant is strictly earlier than `other`.
    pub fn is_before(&self, other: &Timestamp) -> (b: bool)
        ensures
            b == self.before(*other),
    {
        self.secs < other.secs || (self.secs == other.secs && self.nanos < other.nanos)
    }

    /// The instant to the minute, as `year-month-day hour:minute` in UTC;
    /// `None` for an instant outside the calendar's range.
    pub fn to_minute_text(&self) -> (text: Option<String>)
        ensures
            text_of(text) == minute_text(self.secs as int, self.nanos as int),
    {
        format_minute(self.secs, self.nanos)
    }

    /// Reads the system clock.
    pub fn now() -> (t: Timestamp)
        ensures
            t.is_clock_reading(),
    {
        read_clock()
    }
}

/// `chrono::Utc::now`, taken apart with `DateTime::timestamp` and
/// `DateTime::timestamp_subsec_nanos`. The clock is read as the time elapsed
/// since the epoch, so the seconds are not negative and the nanoseconds stay
/// below one second; nothing else is known of the reading. The call panics
/// when the system clock stands before the epoch.
#[verifier::external_body]
fn read_clock() -> (t: Timestamp)
    ensures
        t.secs >= 0,
        t.nanos < 1_000_000_000,
{
    let now = chrono::Utc::now();
    Timestamp { secs: now.timestamp(), nanos: now.timestamp_subsec_nanos() }
}

/// How an instant reads to the minute: what `chrono` writes for it under the
/// format `%Y-%m-%d %H:%M`, or nothing where `chrono` holds no such instant.
pub uninterp spec fn minute_text(secs: int, nanos: int) -> Option<Seq<char>>;

/// `chrono::DateTime::from_timestamp`, and on what it gives
/// `DateTime::format` with `%Y-%m-%d %H:%M`, written out. The result depends
/// on the two numbers alone: the instant is taken in UTC and the format
/// holds no item that depends on a locale.
#[verifier::external_body]
fn format_minute(secs: i64, nanos: u32) -> (text: Option<String>)
    ensures
        text_of(text) == minute_text(secs as int, nanos as int),
{
    chrono::DateTime::from_timestamp(secs, nanos).map(|t| t.format("%Y-%m-%d %H:%M").to_string())
}

} // verus!
