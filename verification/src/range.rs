//! A normalized selection range: an ordered pair of selection points.

use vstd::prelude::*;

use crate::date_time::{Date, Time};
use crate::point::{SelectionPoint, lemma_point_order_total, spec_date_only};

verus! {

/// A selection range with `start <= end` in the point order.
/// Built only through the normalizing constructor [`SelectionRange::new`],
/// which keeps that invariant; the derived helpers assume it.
#[derive(Clone, Copy, Debug, PartialEq, Eq, Structural)]
pub struct SelectionRange {
    /// The start point of the selection.
    pub start: SelectionPoint,
    /// The end point of the selection.
    pub end: SelectionPoint,
}

/// The range the normalizing constructor yields: the two points in order.
pub open spec fn spec_normalized(p1: SelectionPoint, p2: SelectionPoint) -> SelectionRange {
    if p1.spec_le(p2) {
        SelectionRange { start: p1, end: p2 }
    } else {
        SelectionRange { start: p2, end: p1 }
    }
}

impl SelectionRange {
    /// The invariant the constructor establishes.
    pub open spec fn wf(self) -> bool {
        self.start.spec_le(self.end)
    }

    /// Inclusive day count of the range: one for a single-day range.
    pub open spec fn spec_day_count(self) -> int {
        self.end.date.days - self.start.date.days + 1
    }

    /// Create a new range, normalizing so that `start <= end`.
    pub fn new(point1: SelectionPoint, point2: SelectionPoint) -> (r: Self)
        ensures
            r == spec_normalized(point1, point2),
            r.wf(),
    {
        proof {
            lemma_point_order_total(point1, point2);
        }
        if point1.le(&point2) {
            Self { start: point1, end: point2 }
        } else {
            Self { start: point2, end: point1 }
        }
    }

    /// Create a date-only range (for the month view).
    pub fn from_dates(date1: Date, date2: Date) -> (r: Self)
        ensures
            r == spec_normalized(spec_date_only(date1), spec_date_only(date2)),
            r.wf(),
    {
        Self::new(SelectionPoint::date_only(date1), SelectionPoint::date_only(date2))
    }

    /// Get the start date.
    pub fn start_date(&self) -> (r: Date)
        ensures
            r == self.start.date,
    {
        self.start.date
    }

    /// Get the end date.
    pub fn end_date(&self) -> (r: Date)
        ensures
            r == self.end.date,
    {
        self.end.date
    }

    /// Get the start time, if any.
    pub fn start_time(&self) -> (r: Option<Time>)
        ensures
            r == self.start.time,
    {
        self.start.time
    }

    /// Get the end time, if any.
    pub fn end_time(&self) -> (r: Option<Time>)
        ensures
            r == self.end.time,
    {
        self.end.time
    }

    /// Whether neither endpoint carries a time.
    pub fn is_date_only(&self) -> (r: bool)
        ensures
            r == (self.start.time is None && self.end.time is None),
    {
        self.start.time.is_none() && self.end.time.is_none()
    }

    /// Whether `date` lies within the range, inclusive on both ends and
    /// ignoring the times.
    pub fn contains_date(&self, date: Date) -> (r: bool)
        ensures
            r == (self.start.date.days <= date.days && date.days <= self.end.date.days),
    {
        date.days >= self.start.date.days && date.days <= self.end.date.days
    }

    /// Whether the range spans more than one day.
    pub fn is_multi_day(&self) -> (r: bool)
        ensures
            r == (self.start.date != self.end.date),
    {
        self.start.date.days != self.end.date.days
    }

    /// The number of days in the range, both ends counted.
    pub fn day_count(&self) -> (r: i64)
        ensures
            r == self.spec_day_count(),
            self.start.date == self.end.date ==> r == 1,
    {
        (self.end.date.days as i64) - (self.start.date.days as i64) + 1
    }

    /// Every date of the range in order: exactly `day_count()` dates,
    /// strictly increasing day by day, the first the start date and the
    /// last the end date.
    pub fn dates(&self) -> (r: Vec<Date>)
        requires
            self.wf(),
        ensures
            r@.len() == self.spec_day_count(),
            forall|i: int| 0 <= i < r@.len() ==> r@[i].days == self.start.date.days + i,
            forall|i: int, j: int| 0 <= i < j < r@.len() ==> r@[i].days < r@[j].days,
            r@[0] == self.start.date,
            r@[r@.len() - 1] == self.end.date,
    {
        let mut r: Vec<Date> = Vec::new();
        let mut day: i32 = self.start.date.days;
        loop
            invariant_except_break
                r@.len() == day - self.start.date.days,
            invariant
                self.start.date.days <= day <= self.end.date.days,
                forall|i: int| 0 <= i < r@.len() ==> r@[i].days == self.start.date.days + i,
            ensures
                r@.len() == self.end.date.days - self.start.date.days + 1,
                forall|i: int| 0 <= i < r@.len() ==> r@[i].days == self.start.date.days + i,
            decreases self.end.date.days - day,
        {
            r.push(Date { days: day });
            if day == self.end.date.days {
                break;
            }
            day = day + 1;
        }
        r
    }
}

/// Normalization law: for any pair of points, the constructed range has
/// `start <= end`, and swapping the arguments gives the same range.
pub proof fn lemma_range_new_normalizes(p1: SelectionPoint, p2: SelectionPoint)
    ensures
        spec_normalized(p1, p2).wf(),
        spec_normalized(p1, p2) == spec_normalized(p2, p1),
{
    lemma_point_order_total(p1, p2);
}

} // verus!
