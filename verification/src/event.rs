//! The event record the layout algorithms consume.

use vstd::prelude::*;

use crate::date_time::Time;

verus! {

/// A displayable event, as the rendering layer hands it to the layout
/// code: identity, display fields, and the time range for timed events.
#[derive(Debug)]
pub struct DisplayEvent {
    /// The event's unique id.
    pub uid: String,
    /// The event's summary line.
    pub summary: String,
    /// The event's display color, as a hex string.
    pub color: String,
    /// Whether the event is an all-day event.
    pub all_day: bool,
    /// The start time, if the event is timed.
    pub start_time: Option<Time>,
    /// The end time, if the event is timed.
    pub end_time: Option<Time>,
}

impl Clone for DisplayEvent {
    /// A clone carries exactly the same fields.
    fn clone(&self) -> (r: Self)
        ensures
            r == *self,
    {
        DisplayEvent {
            uid: self.uid.clone(),
            summary: self.summary.clone(),
            color: self.color.clone(),
            all_day: self.all_day,
            start_time: self.start_time,
            end_time: self.end_time,
        }
    }
}

/// The events of one day, an entry of the per-date event list.
#[derive(Debug)]
pub struct DayEvents {
    /// The day the events belong to.
    pub date: crate::date_time::Date,
    /// The events shown on that day.
    pub events: Vec<DisplayEvent>,
}

} // verus!
