//! Core logic of a calendar application's interaction layer.
//!
//! The crate covers the parts of such an application that carry real
//! invariants: drag selection of date and time ranges, dragging an existing
//! event to a new date or time, packing overlapping timed events into
//! display columns, and assigning multi-day event bars to stable vertical
//! slots within a week.  Rendering, persistence and localization stay
//! outside; the library consumes and produces plain values.

pub mod date_time;
pub mod point;
pub mod range;
pub mod state;
pub mod drag;
pub mod event;
pub mod layout;
pub mod slots;
pub mod compact;
pub mod message;
pub mod handlers;
pub mod localized_names;
