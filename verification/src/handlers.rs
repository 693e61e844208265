//! Selection message handlers: the state transitions behind the press,
//! drag and release messages, and the decisions a finished selection
//! yields.  The caller performs whatever the decision asks for — opening a
//! dialog, anchoring a date — outside this crate.

use vstd::prelude::*;

use crate::date_time::{Date, Time};
use crate::message::CalendarView;
use crate::point::{spec_date_only, spec_with_time};
use crate::state::{SelectionState, spec_empty_state, spec_started_at};

verus! {

/// What a finished drag selection asks the application to do.
#[derive(Clone, Copy, Debug, PartialEq, Eq, Structural)]
pub enum SelectionEnd {
    /// Create an event over the selected dates (month, week and day
    /// views).
    CreateRange {
        /// First selected date.
        start: Date,
        /// Last selected date.
        end: Date,
    },
    /// Only anchor the selected day (year view).
    SelectDate {
        /// The day to select.
        date: Date,
    },
}

/// A time range picked by dragging over hour cells, ready to seed a quick
/// timed event.
#[derive(Clone, Copy, Debug, PartialEq, Eq, Structural)]
pub struct QuickTimedEvent {
    /// The day the drag started on.
    pub date: Date,
    /// The earlier of the two selected times.
    pub start_time: Time,
    /// The later of the two selected times.
    pub end_time: Time,
}

/// The decision a finished selection yields, by view.
pub open spec fn spec_selection_outcome(st: SelectionState, view: CalendarView) -> Option<
    SelectionEnd,
> {
    match st.spec_range() {
        None => None,
        Some(range) => match view {
            CalendarView::Year => Some(SelectionEnd::SelectDate { date: range.start.date }),
            _ => Some(
                SelectionEnd::CreateRange { start: range.start.date, end: range.end.date },
            ),
        },
    }
}

/// The quick timed event a finished time selection yields: nothing
/// without both times or without an actual drag, else the start date with
/// the two times in order.
pub open spec fn spec_time_selection_outcome(st: SelectionState) -> Option<QuickTimedEvent> {
    match st.spec_range() {
        None => None,
        Some(range) => match (range.start.time, range.end.time) {
            (Some(t1), Some(t2)) => {
                if range.start.date == range.end.date && t1 == t2 {
                    None
                } else {
                    Some(
                        QuickTimedEvent {
                            date: range.start.date,
                            start_time: if t1.secs <= t2.secs {
                                t1
                            } else {
                                t2
                            },
                            end_time: if t1.secs <= t2.secs {
                                t2
                            } else {
                                t1
                            },
                        },
                    )
                }
            },
            _ => None,
        },
    }
}

/// Start a drag selection at the given date (mouse press on a day cell).
/// Every view starts a selection the same way.
pub fn handle_selection_start(state: &mut SelectionState, date: Date)
    ensures
        *final(state) == spec_started_at(spec_date_only(date)),
{
    state.start(date);
}

/// Move the selection end point (mouse move while dragging); a no-op
/// while no selection is active.
pub fn handle_selection_update(state: &mut SelectionState, date: Date)
    ensures
        !old(state).is_active ==> *final(state) == *old(state),
        old(state).is_active ==> *final(state) == (SelectionState {
            end: Some(spec_date_only(date)),
            ..*old(state)
        }),
{
    if state.is_active {
        state.update(date);
    }
}

/// End the selection (mouse release) and decide what it asks for: in the
/// year view only the anchor day, elsewhere an event over the selected
/// dates.  Nothing happens while no selection is active.
pub fn handle_selection_end(state: &mut SelectionState, view: CalendarView) -> (r: Option<
    SelectionEnd,
>)
    ensures
        !old(state).is_active ==> (r is None && *final(state) == *old(state)),
        old(state).is_active ==> (*final(state) == spec_empty_state() && r
            == spec_selection_outcome(*old(state), view)),
{
    let range = match state.end() {
        Some(range) => range,
        None => { return None; },
    };
    match view {
        CalendarView::Year => Some(SelectionEnd::SelectDate { date: range.start_date() }),
        _ => Some(
            SelectionEnd::CreateRange { start: range.start_date(), end: range.end_date() },
        ),
    }
}

/// Cancel the current selection.
pub fn handle_selection_cancel(state: &mut SelectionState)
    ensures
        *final(state) == spec_empty_state(),
{
    state.cancel();
}

/// Start a time-based selection at the given date and time (mouse press
/// on an hour cell).
pub fn handle_time_selection_start(state: &mut SelectionState, date: Date, time: Time)
    ensures
        *final(state) == spec_started_at(spec_with_time(date, time)),
{
    state.start_with_time(date, time);
}

/// Move the time selection end point (mouse move while dragging); a no-op
/// while no selection is active.
pub fn handle_time_selection_update(state: &mut SelectionState, date: Date, time: Time)
    ensures
        !old(state).is_active ==> *final(state) == *old(state),
        old(state).is_active ==> *final(state) == (SelectionState {
            end: Some(spec_with_time(date, time)),
            ..*old(state)
        }),
{
    if state.is_active {
        state.update_with_time(date, time);
    }
}

/// End the time selection (mouse release).  Yields the selected time
/// range, times in order, to seed a quick timed event — unless a time is
/// missing or the release fell on the starting cell with no drag between,
/// which must not open the input.  Nothing happens while no selection is
/// active.
pub fn handle_time_selection_end(state: &mut SelectionState) -> (r: Option<QuickTimedEvent>)
    ensures
        !old(state).is_active ==> (r is None && *final(state) == *old(state)),
        old(state).is_active ==> (*final(state) == spec_empty_state() && r
            == spec_time_selection_outcome(*old(state))),
{
    let range = match state.end() {
        Some(range) => range,
        None => { return None; },
    };

    // A time selection carries times on both ends; bail out otherwise.
    let start_time = match range.start_time() {
        Some(t) => t,
        None => { return None; },
    };
    let end_time = match range.end_time() {
        Some(t) => t,
        None => { return None; },
    };

    // Same cell and no drag: let a plain click pass without opening the
    // quick event input.
    if range.start_date().days == range.end_date().days && start_time.secs == end_time.secs {
        return None;
    }

    // Order the two times.
    let (start_time, end_time) = if start_time.secs <= end_time.secs {
        (start_time, end_time)
    } else {
        (end_time, start_time)
    };

    Some(QuickTimedEvent { date: range.start_date(), start_time, end_time })
}

} // verus!
