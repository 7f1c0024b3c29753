//! Instants, time windows and their calendar reading in UTC.

use chrono::{Datelike, Timelike};
use vstd::prelude::*;

verus! {

/// Nanoseconds in one second.
pub const NANOS_PER_SEC: u32 = 1_000_000_000;

/// An instant: whole seconds since 1970-01-01 00:00:00 UTC, and the
/// nanoseconds that have passed since that second began.
#[derive(Clone, Copy, Debug, PartialEq, Eq, Structural)]
pub struct Timestamp {
    pub secs: i64,
    pub nanos: u32,
}

/// What a calendar and a clock show at an instant, in UTC.
#[derive(Clone, Copy, Debug, PartialEq, Eq, Structural)]
pub struct Civil {
    pub year: i32,
    pub month: u32,
    pub day: u32,
    pub hour: u32,
    pub minute: u32,
    pub second: u32,
}

/// The window of time that a chart shows, from `start` up to `end`.
#[derive(Clone, Copy, Debug, PartialEq, Eq, Structural)]
pub struct TimeRange {
    pub start: Timestamp,
    pub end: Timestamp,
}

/// Seconds in one day.
pub const SECS_PER_DAY: i64 = 86_400;

/// A day of the calendar: year, month and day of the month.
pub type Date = (i32, u32, u32);

/// The date that chrono gives to the day that lies `day` days after the
/// first of January 1970, or `None` where chrono has no date for it.
pub uninterp spec fn utc_date(day: int) -> Option<Date>;

/// The calendar reading of the second `second` of a day with the date
/// `date`: the hours are the whole 3600 seconds, the minutes the whole 60
/// seconds of what is left, the seconds the rest.
pub open spec fn civil_on(date: Option<Date>, second: int) -> Option<Civil> {
    match date {
        Some((year, month, day)) => Some(
            Civil {
                year,
                month,
                day,
                hour: (second / 3600) as u32,
                minute: (second / 60 % 60) as u32,
                second: (second % 60) as u32,
            },
        ),
        None => None,
    }
}

/// The calendar reading of the instant `secs` seconds after the first of
/// January 1970, 00:00:00 UTC: the date of its day, and the time that has
/// passed since the day began. `None` where chrono has no date for the day.
pub open spec fn utc_civil(secs: int) -> Option<Civil> {
    civil_on(utc_date(secs / 86_400), secs % 86_400)
}

/// Nanoseconds from `start` to `end`; negative when `end` comes first.
pub open spec fn span_nanos(start: Timestamp, end: Timestamp) -> int {
    (end.secs - start.secs) * NANOS_PER_SEC + (end.nanos - start.nanos)
}

/// `a / b` rounded towards zero, for a positive `b`.
pub open spec fn div_toward_zero(a: int, b: int) -> int {
    if a >= 0 {
        a / b
    } else {
        -((-a) / b)
    }
}

/// Calls `chrono::DateTime::from_timestamp` with no nanoseconds and reads the
/// six calendar fields of what it returns.
///
/// Trusted. chrono splits the seconds into whole days, rounding down, and
/// the seconds of the last day. The date depends on the number of days
/// alone and is what the name `utc_date` stands for; there is a result
/// exactly where there is a date. Hour, minute and second are the seconds
/// of the day counted in units of 3600, 60 and 1.
#[verifier::external_body]
fn civil_from_timestamp(secs: i64) -> (r: Option<Civil>)
    ensures
        r == civil_on(utc_date(secs as int / 86_400), secs as int % 86_400),
{
    let t = chrono::DateTime::from_timestamp(secs, 0)?;
    Some(Civil {
        year: t.year(),
        month: t.month(),
        day: t.day(),
        hour: t.hour(),
        minute: t.minute(),
        second: t.second(),
    })
}

/// `a / b` rounded towards zero.
fn quotient_toward_zero(a: i128, b: i128) -> (q: i128)
    requires
        b > 0,
    ensures
        q == div_toward_zero(a as int, b as int),
{
    a / b
}

impl Timestamp {
    /// The calendar reading of this instant in UTC, `None` for an instant that
    /// lies outside the years chrono can name.
    pub fn civil(&self) -> (r: Option<Civil>)
        ensures
            r == utc_civil(self.secs as int),
    {
        civil_from_timestamp(self.secs)
    }
}

impl TimeRange {
    /// Length of the window in nanoseconds.
    pub open spec fn nanos(self) -> int {
        span_nanos(self.start, self.end)
    }

    /// Length of the window in whole seconds, rounded towards zero.
    pub open spec fn seconds(self) -> int {
        div_toward_zero(self.nanos(), NANOS_PER_SEC as int)
    }

    /// Length of the window in whole seconds, rounded towards zero; negative
    /// when the window ends before it starts.
    pub fn num_seconds(&self) -> (s: i128)
        ensures
            s == self.seconds(),
    {
        let whole: i128 = (self.end.secs as i128 - self.start.secs as i128) * 1_000_000_000;
        let part: i128 = self.end.nanos as i128 - self.start.nanos as i128;
        quotient_toward_zero(whole + part, 1_000_000_000)
    }
}

} // verus!
