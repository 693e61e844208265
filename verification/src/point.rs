//! A selection point: a date with an optional time of day.

use vstd::prelude::*;

use crate::date_time::{Date, Time};
use crate::date_time::spec_opt_time_le;
use crate::date_time::opt_time_le;

verus! {

/// A point in the date/time domain.
/// - `time == None` means the point covers the whole day (month view).
/// - `time == Some(t)` means a specific time (week and day views).
#[derive(Clone, Copy, Debug, PartialEq, Eq, Structural)]
pub struct SelectionPoint {
    pub date: Date,
    pub time: Option<Time>,
}

/// The date-only point for `date`.
pub open spec fn spec_date_only(date: Date) -> SelectionPoint {
    SelectionPoint { date, time: None }
}

/// The timed point for `date` and `time`.
pub open spec fn spec_with_time(date: Date, time: Time) -> SelectionPoint {
    SelectionPoint { date, time: Some(time) }
}

impl SelectionPoint {
    /// Order on points: by date first, then by time, a date-only point
    /// before any timed point on the same date.
    pub open spec fn spec_le(self, other: SelectionPoint) -> bool {
        self.date.days < other.date.days
            || (self.date.days == other.date.days && spec_opt_time_le(self.time, other.time))
    }

    /// Create a date-only selection point (for the month view).
    pub fn date_only(date: Date) -> (r: Self)
        ensures
            r == spec_date_only(date),
    {
        Self { date, time: None }
    }

    /// Create a date+time selection point (for the week and day views).
    pub fn with_time(date: Date, time: Time) -> (r: Self)
        ensures
            r == spec_with_time(date, time),
    {
        Self { date, time: Some(time) }
    }

    /// Get the date component.
    pub fn date(&self) -> (r: Date)
        ensures
            r == self.date,
    {
        self.date
    }

    /// Get the time component, if any.
    pub fn time(&self) -> (r: Option<Time>)
        ensures
            r == self.time,
    {
        self.time
    }

    /// Whether this is a date-only point.
    pub fn is_date_only(&self) -> (r: bool)
        ensures
            r == (self.time is None),
    {
        self.time.is_none()
    }

    /// Executable form of [`SelectionPoint::spec_le`].
    pub fn le(&self, other: &SelectionPoint) -> (r: bool)
        ensures
            r == self.spec_le(*other),
    {
        self.date.days < other.date.days
            || (self.date.days == other.date.days && opt_time_le(&self.time, &other.time))
    }
}

/// The point order is total: two points are always comparable, and points
/// ordered both ways are equal.
pub proof fn lemma_point_order_total(p1: SelectionPoint, p2: SelectionPoint)
    ensures
        p1.spec_le(p2) || p2.spec_le(p1),
        (p1.spec_le(p2) && p2.spec_le(p1)) ==> p1 == p2,
{
}

} // verus!
