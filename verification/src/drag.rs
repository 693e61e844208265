//! Event-drag state: tracking the gesture that moves an existing event to
//! a new date or time.

use vstd::prelude::*;

use crate::date_time::{Date, Time};
use crate::date_time::opt_time_eq;

verus! {

/// State for moving an existing event by drag.
///
/// `start` captures the event's identity and origin and sets the target to
/// the origin; `update` moves only the target; `end` yields a move
/// descriptor when the target differs from the origin, or `None` for a
/// no-op move; `cancel` discards everything.  The target fields are only
/// meaningful while `is_active`; calls while inactive are safe no-ops.
#[derive(Debug)]
pub struct EventDragState {
    /// The uid of the event being dragged.
    pub event_uid: Option<String>,
    /// The date the event was on when the drag started.
    pub original_date: Option<Date>,
    /// The start time the event had when the drag started, if timed.
    pub original_time: Option<Time>,
    /// The date currently under the cursor.
    pub target_date: Option<Date>,
    /// The time currently under the cursor, if dragging over timed cells.
    pub target_time: Option<Time>,
    /// The event's summary, kept for drawing a drag preview.
    pub summary: Option<String>,
    /// The event's display color, kept for drawing a drag preview.
    pub color: Option<String>,
    /// Whether an event drag is currently active.
    pub is_active: bool,
}

/// The inactive, empty drag state.
pub open spec fn spec_empty_drag() -> EventDragState {
    EventDragState {
        event_uid: None,
        original_date: None,
        original_time: None,
        target_date: None,
        target_time: None,
        summary: None,
        color: None,
        is_active: false,
    }
}

impl Clone for EventDragState {
    /// A clone carries exactly the same fields.
    fn clone(&self) -> (r: Self)
        ensures
            r == *self,
    {
        EventDragState {
            event_uid: match &self.event_uid {
                Some(s) => Some(s.clone()),
                None => None,
            },
            original_date: self.original_date,
            original_time: self.original_time,
            target_date: self.target_date,
            target_time: self.target_time,
            summary: match &self.summary {
                Some(s) => Some(s.clone()),
                None => None,
            },
            color: match &self.color {
                Some(s) => Some(s.clone()),
                None => None,
            },
            is_active: self.is_active,
        }
    }
}

impl EventDragState {
    /// Create a new, inactive drag state.
    pub fn new() -> (r: Self)
        ensures
            r == spec_empty_drag(),
    {
        EventDragState {
            event_uid: None,
            original_date: None,
            original_time: None,
            target_date: None,
            target_time: None,
            summary: None,
            color: None,
            is_active: false,
        }
    }

    /// Begin dragging a date-only event: capture identity and origin, set
    /// the target to the origin, and activate.
    pub fn start(&mut self, uid: String, date: Date, summary: String, color: String)
        ensures
            *final(self) == (EventDragState {
                event_uid: Some(uid),
                original_date: Some(date),
                original_time: None,
                target_date: Some(date),
                target_time: None,
                summary: Some(summary),
                color: Some(color),
                is_active: true,
            }),
    {
        self.event_uid = Some(uid);
        self.original_date = Some(date);
        self.original_time = None;
        self.target_date = Some(date);
        self.target_time = None;
        self.summary = Some(summary);
        self.color = Some(color);
        self.is_active = true;
    }

    /// Begin dragging a timed event: as [`EventDragState::start`], with the
    /// event's start time as the origin time.
    pub fn start_with_time(
        &mut self,
        uid: String,
        date: Date,
        time: Time,
        summary: String,
        color: String,
    )
        ensures
            *final(self) == (EventDragState {
                event_uid: Some(uid),
                original_date: Some(date),
                original_time: Some(time),
                target_date: Some(date),
                target_time: Some(time),
                summary: Some(summary),
                color: Some(color),
                is_active: true,
            }),
    {
        self.event_uid = Some(uid);
        self.original_date = Some(date);
        self.original_time = Some(time);
        self.target_date = Some(date);
        self.target_time = Some(time);
        self.summary = Some(summary);
        self.color = Some(color);
        self.is_active = true;
    }

    /// Move the target to a date-only cell.  The origin is retained for
    /// the later delta; a no-op while inactive.
    pub fn update(&mut self, date: Date)
        ensures
            !old(self).is_active ==> *final(self) == *old(self),
            old(self).is_active ==> *final(self) == (EventDragState {
                target_date: Some(date),
                target_time: None,
                ..*old(self)
            }),
    {
        if self.is_active {
            self.target_date = Some(date);
            self.target_time = None;
        }
    }

    /// Move the target to a timed cell; a no-op while inactive.
    pub fn update_with_time(&mut self, date: Date, time: Time)
        ensures
            !old(self).is_active ==> *final(self) == *old(self),
            old(self).is_active ==> *final(self) == (EventDragState {
                target_date: Some(date),
                target_time: Some(time),
                ..*old(self)
            }),
    {
        if self.is_active {
            self.target_date = Some(date);
            self.target_time = Some(time);
        }
    }

    /// Finish the drag, comparing dates only.  Yields
    /// `Some((uid, original_date, target_date))` when the target date
    /// differs from the original, `None` for a no-op move, and resets.
    /// While inactive this changes nothing and yields `None`.
    pub fn end(&mut self) -> (r: Option<(String, Date, Date)>)
        ensures
            !old(self).is_active ==> (r is None && *final(self) == *old(self)),
            old(self).is_active ==> *final(self) == spec_empty_drag(),
            old(self).is_active ==> r == (match (
                old(self).event_uid,
                old(self).original_date,
                old(self).target_date,
            ) {
                (Some(uid), Some(orig), Some(tgt)) => if orig == tgt {
                    None
                } else {
                    Some((uid, orig, tgt))
                },
                _ => None::<(String, Date, Date)>,
            }),
    {
        if !self.is_active {
            return None;
        }
        let r = match (&self.event_uid, &self.original_date, &self.target_date) {
            (Some(uid), Some(orig), Some(tgt)) => {
                if orig.days == tgt.days {
                    None
                } else {
                    Some((uid.clone(), *orig, *tgt))
                }
            },
            _ => None,
        };
        self.reset_fields();
        r
    }

    /// Finish the drag with times.  Yields
    /// `Some((uid, original_date, original_time, target_date, target_time))`
    /// when the target position differs from the original in date or time,
    /// `None` for a no-op move, and resets.  While inactive this changes
    /// nothing and yields `None`.
    pub fn end_with_time(&mut self) -> (r: Option<(String, Date, Option<Time>, Date, Option<
        Time,
    >)>)
        ensures
            !old(self).is_active ==> (r is None && *final(self) == *old(self)),
            old(self).is_active ==> *final(self) == spec_empty_drag(),
            old(self).is_active ==> r == (match (
                old(self).event_uid,
                old(self).original_date,
                old(self).target_date,
            ) {
                (Some(uid), Some(orig), Some(tgt)) => if orig == tgt && old(self).original_time
                    == old(self).target_time {
                    None
                } else {
                    Some((uid, orig, old(self).original_time, tgt, old(self).target_time))
                },
                _ => None::<(String, Date, Option<Time>, Date, Option<Time>)>,
            }),
    {
        if !self.is_active {
            return None;
        }
        let r = match (&self.event_uid, &self.original_date, &self.target_date) {
            (Some(uid), Some(orig), Some(tgt)) => {
                if orig.days == tgt.days && opt_time_eq(&self.original_time, &self.target_time) {
                    None
                } else {
                    Some((uid.clone(), *orig, self.original_time, *tgt, self.target_time))
                }
            },
            _ => None,
        };
        self.reset_fields();
        r
    }

    /// The signed day delta from the original to the target date, for the
    /// live drag preview; `None` while inactive or unset.
    pub fn get_offset(&self) -> (r: Option<i64>)
        ensures
            r == (if self.is_active {
                match (self.original_date, self.target_date) {
                    (Some(orig), Some(tgt)) => Some((tgt.days - orig.days) as i64),
                    _ => None::<i64>,
                }
            } else {
                None::<i64>
            }),
    {
        if !self.is_active {
            return None;
        }
        match (&self.original_date, &self.target_date) {
            (Some(orig), Some(tgt)) => Some(orig.days_until(tgt)),
            _ => None,
        }
    }

    /// The date currently under the cursor, while a drag is active.
    pub fn target_date(&self) -> (r: Option<Date>)
        ensures
            r == self.target_date,
    {
        self.target_date
    }

    /// The time currently under the cursor, while a drag is active.
    pub fn target_time(&self) -> (r: Option<Time>)
        ensures
            r == self.target_time,
    {
        self.target_time
    }

    /// The summary of the dragged event, for the preview.
    pub fn event_summary(&self) -> (r: Option<&str>)
        ensures
            r is Some <==> self.summary is Some,
            r is Some ==> r.unwrap()@ == self.summary.unwrap()@,
    {
        match &self.summary {
            Some(s) => Some(s.as_str()),
            None => None,
        }
    }

    /// The display color of the dragged event, for the preview.
    pub fn event_color(&self) -> (r: Option<&str>)
        ensures
            r is Some <==> self.color is Some,
            r is Some ==> r.unwrap()@ == self.color.unwrap()@,
    {
        match &self.color {
            Some(s) => Some(s.as_str()),
            None => None,
        }
    }

    /// Abandon the drag: deactivate and clear identity and display fields
    /// without yielding a move.
    pub fn cancel(&mut self)
        ensures
            *final(self) == spec_empty_drag(),
    {
        self.reset_fields();
    }

    /// Clear every field and deactivate.
    fn reset_fields(&mut self)
        ensures
            *final(self) == spec_empty_drag(),
    {
        self.event_uid = None;
        self.original_date = None;
        self.original_time = None;
        self.target_date = None;
        self.target_time = None;
        self.summary = None;
        self.color = None;
        self.is_active = false;
    }
}

} // verus!
