//! The application's view and message types: plain data the dispatch loop
//! hands around.

use vstd::prelude::*;

verus! {

/// The calendar view currently shown.
#[derive(Clone, Copy, Debug, PartialEq, Eq, Structural)]
pub enum CalendarView {
    /// One month as a grid of weeks.
    Month,
    /// One week with hourly time slots.
    Week,
    /// One day with hourly time slots.
    Day,
    /// Twelve mini months of one year.
    Year,
}

/// A user-interface message, one per discrete input.
#[derive(Clone, Copy, Debug, PartialEq, Eq, Structural)]
pub enum Message {
    /// Switch to another calendar view.
    ChangeView(CalendarView),
    /// Navigate one period (day, week, month or year) back.
    PreviousPeriod,
    /// Navigate one period forward.
    NextPeriod,
    /// Navigate to today.
    Today,
    /// Select a day of the shown month by its number.
    SelectDay(u32),
    /// Show or hide the sidebar.
    ToggleSidebar,
    /// Show or hide the search bar.
    ToggleSearch,
    /// Move the sidebar's mini calendar one month back.
    MiniCalendarPrevMonth,
    /// Move the sidebar's mini calendar one month forward.
    MiniCalendarNextMonth,
    /// Open the new-event dialog.
    NewEvent,
    /// Open the settings dialog.
    Settings,
    /// Show the about page.
    About,
}

} // verus!
