//! Drag-selection state: tracking a press-drag-release gesture over day or
//! hour cells and producing a normalized range.

use vstd::prelude::*;

use crate::date_time::{Date, Time};
use crate::point::{SelectionPoint, spec_date_only, spec_with_time};
use crate::range::{SelectionRange, spec_normalized};

verus! {

/// State for tracking a drag selection across day or time cells.
///
/// Supports both date-only selection (month view), with points whose time
/// is `None`, and time-based selection (week and day views).
///
/// Lifecycle: reset (both points `None`, inactive) -> `start` (both points
/// the pressed cell, active) -> any number of `update` calls (only the end
/// point moves) -> `end` (yields the normalized range and resets) or
/// `cancel` (resets without a range).  Out-of-order calls are safe no-ops.
#[derive(Clone, Copy, Debug)]
pub struct SelectionState {
    /// The point where the selection started (mouse press).
    pub start: Option<SelectionPoint>,
    /// The current end point of the selection (follows the mouse).
    pub end: Option<SelectionPoint>,
    /// Whether a drag selection is currently active.
    pub is_active: bool,
}

/// The inactive, empty state.
pub open spec fn spec_empty_state() -> SelectionState {
    SelectionState { start: None, end: None, is_active: false }
}

/// The state right after a selection started at `p`.
pub open spec fn spec_started_at(p: SelectionPoint) -> SelectionState {
    SelectionState { start: Some(p), end: Some(p), is_active: true }
}

impl SelectionState {
    /// The normalized range of the current points: there is one only
    /// while a selection is active and both points are set.
    pub open spec fn spec_range(self) -> Option<SelectionRange> {
        if self.is_active {
            match (self.start, self.end) {
                (Some(s), Some(e)) => Some(spec_normalized(s, e)),
                _ => None,
            }
        } else {
            None
        }
    }

    /// Whether the hour cell `(date, hour)` overlaps the time range of
    /// `range`.  A missing start time counts from midnight, a missing end
    /// time up to the last second of the day.  On a single-day selection
    /// the cell must overlap the time window; on a multi-day selection the
    /// first day is covered from the start time on, the last day up to the
    /// end time, and every day between in full.
    pub open spec fn spec_cell_selected(range: SelectionRange, date: Date, hour: int) -> bool {
        let cell_start = hour * 3600;
        let cell_end = hour * 3600 + 3599;
        let sel_start = match range.start.time {
            Some(t) => t.secs as int,
            None => 0,
        };
        let sel_end = match range.end.time {
            Some(t) => t.secs as int,
            None => 86399,
        };
        if date.days < range.start.date.days || date.days > range.end.date.days {
            false
        } else if range.start.date.days == range.end.date.days {
            cell_end >= sel_start && cell_start <= sel_end
        } else if date.days == range.start.date.days {
            cell_end >= sel_start
        } else if date.days == range.end.date.days {
            cell_start <= sel_end
        } else {
            true
        }
    }

    /// What `contains_time` answers in any state.
    pub open spec fn spec_contains_time(self, date: Date, hour: int) -> bool {
        match self.spec_range() {
            Some(range) => Self::spec_cell_selected(range, date, hour),
            None => false,
        }
    }

    /// Create a new, empty selection state.
    pub fn new() -> (r: Self)
        ensures
            r == spec_empty_state(),
    {
        Self { start: None, end: None, is_active: false }
    }

    /// Start a new date-only selection (month view).  Valid from any prior
    /// state; a previous in-progress selection is overwritten.
    pub fn start(&mut self, date: Date)
        ensures
            *final(self) == spec_started_at(spec_date_only(date)),
    {
        self.start_at(SelectionPoint::date_only(date));
    }

    /// Start a new time-based selection (week and day views).
    pub fn start_with_time(&mut self, date: Date, time: Time)
        ensures
            *final(self) == spec_started_at(spec_with_time(date, time)),
    {
        self.start_at(SelectionPoint::with_time(date, time));
    }

    /// Start a new selection at the given point.
    fn start_at(&mut self, point: SelectionPoint)
        ensures
            *final(self) == spec_started_at(point),
    {
        self.start = Some(point);
        self.end = Some(point);
        self.is_active = true;
    }

    /// Move the end point to a date-only cell (month view).  The start
    /// point never moves during a drag; a no-op while inactive.
    pub fn update(&mut self, date: Date)
        ensures
            !old(self).is_active ==> *final(self) == *old(self),
            old(self).is_active ==> *final(self) == (SelectionState {
                end: Some(spec_date_only(date)),
                ..*old(self)
            }),
    {
        self.update_to(SelectionPoint::date_only(date));
    }

    /// Move the end point to a timed cell (week and day views).
    pub fn update_with_time(&mut self, date: Date, time: Time)
        ensures
            !old(self).is_active ==> *final(self) == *old(self),
            old(self).is_active ==> *final(self) == (SelectionState {
                end: Some(spec_with_time(date, time)),
                ..*old(self)
            }),
    {
        self.update_to(SelectionPoint::with_time(date, time));
    }

    /// Move the end point of an active selection.
    fn update_to(&mut self, point: SelectionPoint)
        ensures
            !old(self).is_active ==> *final(self) == *old(self),
            old(self).is_active ==> *final(self) == (SelectionState {
                end: Some(point),
                ..*old(self)
            }),
    {
        if self.is_active {
            self.end = Some(point);
        }
    }

    /// End the selection.  While inactive this changes nothing and yields
    /// `None`; an active selection yields its normalized range — a
    /// single-point one included — and the state resets.
    pub fn end(&mut self) -> (r: Option<SelectionRange>)
        ensures
            !old(self).is_active ==> (r is None && *final(self) == *old(self)),
            old(self).is_active ==> (r == old(self).spec_range()
                && *final(self) == spec_empty_state()),
    {
        if !self.is_active {
            return None;
        }
        let range = self.get_range();
        self.reset();
        range
    }

    /// Cancel the current selection without yielding a range (Escape or an
    /// external interruption).
    pub fn cancel(&mut self)
        ensures
            *final(self) == spec_empty_state(),
    {
        self.reset();
    }

    /// Reset the selection state.
    pub fn reset(&mut self)
        ensures
            *final(self) == spec_empty_state(),
    {
        self.start = None;
        self.end = None;
        self.is_active = false;
    }

    /// The current selection range, normalized so that `start <= end`;
    /// `None` while no selection is active.
    pub fn get_range(&self) -> (r: Option<SelectionRange>)
        ensures
            r == self.spec_range(),
            r is Some ==> r.unwrap().wf(),
    {
        if !self.is_active {
            return None;
        }
        match (&self.start, &self.end) {
            (Some(s), Some(e)) => Some(SelectionRange::new(*s, *e)),
            _ => None,
        }
    }

    /// Whether `date` lies in the current selection, ignoring times;
    /// `false` while inactive or unset.
    pub fn contains(&self, date: Date) -> (r: bool)
        ensures
            r == match self.spec_range() {
                Some(range) => range.start.date.days <= date.days
                    && date.days <= range.end.date.days,
                None => false,
            },
    {
        match self.get_range() {
            Some(range) => range.contains_date(date),
            None => false,
        }
    }

    /// Whether the current selection spans multiple days; `false` while
    /// inactive or unset.
    pub fn is_multi_day(&self) -> (r: bool)
        ensures
            r == match self.spec_range() {
                Some(range) => range.start.date != range.end.date,
                None => false,
            },
    {
        match self.get_range() {
            Some(range) => range.is_multi_day(),
            None => false,
        }
    }

    /// Whether the hour cell `(date, hour)` lies within the current
    /// time-based selection, `false` while inactive or unset; used to
    /// highlight hour cells in the week and day views.
    pub fn contains_time(&self, date: Date, hour: u32) -> (r: bool)
        requires
            hour < 24,
        ensures
            r == self.spec_contains_time(date, hour as int),
    {
        let range = match self.get_range() {
            Some(range) => range,
            None => { return false; },
        };

        // The first and last second of the queried hour cell.
        let cell_start: u32 = hour * 3600;
        let cell_end: u32 = hour * 3600 + 3599;

        // Selection times, defaulting to the whole day when not set.
        let sel_start: u32 = match range.start_time() {
            Some(t) => t.secs,
            None => 0,
        };
        let sel_end: u32 = match range.end_time() {
            Some(t) => t.secs,
            None => 86399,
        };

        let sel_start_date = range.start_date();
        let sel_end_date = range.end_date();

        if date.days < sel_start_date.days || date.days > sel_end_date.days {
            return false;
        }

        if sel_start_date.days == sel_end_date.days {
            // Single-day selection: the cell overlaps the time window.
            return cell_end >= sel_start && cell_start <= sel_end;
        }

        if date.days == sel_start_date.days {
            // First day: cells from the start time onwards.
            cell_end >= sel_start
        } else if date.days == sel_end_date.days {
            // Last day: cells up to the end time.
            cell_start <= sel_end
        } else {
            // Days in between: every cell.
            true
        }
    }

    /// The date of the start point, while one is set.
    pub fn start_date(&self) -> (r: Option<Date>)
        ensures
            r == match self.start {
                Some(p) => Some(p.date),
                None => None::<Date>,
            },
    {
        match &self.start {
            Some(p) => Some(p.date),
            None => None,
        }
    }

    /// The date of the end point, while one is set.
    pub fn end_date(&self) -> (r: Option<Date>)
        ensures
            r == match self.end {
                Some(p) => Some(p.date),
                None => None::<Date>,
            },
    {
        match &self.end {
            Some(p) => Some(p.date),
            None => None,
        }
    }
}

impl Default for SelectionState {
    /// The empty, inactive state.
    fn default() -> (r: Self)
        ensures
            r == spec_empty_state(),
    {
        Self::new()
    }
}

} // verus!
