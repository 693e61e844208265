//! The date and time domain the calendar logic works over.
//!
//! A `Date` is a plain day number, so that equality, ordering and
//! day-difference arithmetic are ordinary integer operations.  A `Time` is a
//! second count since midnight.  Callers that hold calendar dates in another
//! form convert at the boundary; any epoch works, since the logic only ever
//! compares dates and takes differences.

use vstd::prelude::*;

verus! {

/// Seconds in a day; `Time` values of a well-formed clock stay below it.
pub const SECS_PER_DAY: u32 = 86400;

/// A calendar date as a signed day number.  Consecutive calendar days have
/// consecutive numbers; a larger number is a later date.
#[derive(Clone, Copy, Debug, PartialEq, Eq, Structural, Hash)]
pub struct Date {
    pub days: i32,
}

impl Date {
    /// `self` is on or before `other`.
    pub open spec fn spec_le(self, other: Date) -> bool {
        self.days <= other.days
    }

    /// Day offset of `other` from `self` (positive when `other` is later).
    pub open spec fn spec_days_until(self, other: Date) -> int {
        other.days - self.days
    }

    /// Signed day count from `self` to `other`.
    pub fn days_until(&self, other: &Date) -> (r: i64)
        ensures
            r == self.spec_days_until(*other),
    {
        (other.days as i64) - (self.days as i64)
    }
}

/// A time of day, counted in seconds since midnight.
#[derive(Clone, Copy, Debug, PartialEq, Eq, Structural, Hash)]
pub struct Time {
    pub secs: u32,
}

impl Time {
    /// A well-formed time lies within the day.
    pub open spec fn wf(self) -> bool {
        self.secs < SECS_PER_DAY
    }

    /// Build a time from hour, minute and second, as a clock shows them.
    /// Yields `Some` exactly for readings a clock can show.
    pub fn from_hms_opt(hour: u32, minute: u32, second: u32) -> (r: Option<Time>)
        ensures
            r is Some <==> (hour < 24 && minute < 60 && second < 60),
            r is Some ==> (r.unwrap().secs == hour * 3600 + minute * 60 + second
                && r.unwrap().wf()),
    {
        if hour < 24 && minute < 60 && second < 60 {
            Some(Time { secs: hour * 3600 + minute * 60 + second })
        } else {
            None
        }
    }

    /// The hour of day, 0 to 23 for well-formed times.
    pub fn hour(&self) -> (r: u32)
        ensures
            r == self.secs / 3600,
            self.wf() ==> r < 24,
    {
        self.secs / 3600
    }

    /// The minute within the hour, 0 to 59 for well-formed times.
    pub fn minute(&self) -> (r: u32)
        ensures
            r == (self.secs / 60) % 60,
    {
        (self.secs / 60) % 60
    }

    /// The second within the minute, 0 to 59 for well-formed times.
    pub fn second(&self) -> (r: u32)
        ensures
            r == self.secs % 60,
    {
        self.secs % 60
    }

    /// Minutes since midnight, the unit the hour grid is laid out in.
    /// Equals `hour() * 60 + minute()`.
    pub fn minutes_of_day(&self) -> (r: u32)
        ensures
            r == self.secs / 60,
            r == (self.secs / 3600) * 60 + (self.secs / 60) % 60,
    {
        proof {
            assert(self.secs / 60 == (self.secs / 3600) * 60 + (self.secs / 60) % 60) by (nonlinear_arith);
        }
        self.secs / 60
    }
}

/// Order on optional times: a missing time sorts before any set one, and
/// set times compare as clock readings.  This is the tie-break used when
/// selection points on the same date are compared.
pub open spec fn spec_opt_time_le(a: Option<Time>, b: Option<Time>) -> bool {
    match (a, b) {
        (None, _) => true,
        (Some(_), None) => false,
        (Some(x), Some(y)) => x.secs <= y.secs,
    }
}

/// Executable form of [`spec_opt_time_le`].
pub fn opt_time_le(a: &Option<Time>, b: &Option<Time>) -> (r: bool)
    ensures
        r == spec_opt_time_le(*a, *b),
{
    match (a, b) {
        (None, _) => true,
        (Some(_), None) => false,
        (Some(x), Some(y)) => x.secs <= y.secs,
    }
}

/// Strict form of the order on optional times.
pub open spec fn spec_opt_time_lt(a: Option<Time>, b: Option<Time>) -> bool {
    spec_opt_time_le(a, b) && a != b
}

/// Equality on optional times, decided field by field.
pub fn opt_time_eq(a: &Option<Time>, b: &Option<Time>) -> (r: bool)
    ensures
        r == (*a == *b),
{
    match (a, b) {
        (None, None) => true,
        (Some(x), Some(y)) => x.secs == y.secs,
        _ => false,
    }
}

} // verus!
