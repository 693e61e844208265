use calendar_core::date_time::{Date, Time};
use calendar_core::handlers::{
    handle_selection_cancel, handle_selection_end, handle_selection_start,
    handle_time_selection_end, handle_time_selection_start, handle_time_selection_update,
    QuickTimedEvent, SelectionEnd,
};
use calendar_core::message::CalendarView;
use calendar_core::point::SelectionPoint;
use calendar_core::range::SelectionRange;
use calendar_core::state::SelectionState;
use chrono::Datelike;

fn ymd(year: i32, month: u32, day: u32) -> Date {
    Date {
        days: chrono::NaiveDate::from_ymd_opt(year, month, day)
            .unwrap()
            .num_days_from_ce(),
    }
}

fn hms(hour: u32, minute: u32, second: u32) -> Time {
    Time::from_hms_opt(hour, minute, second).unwrap()
}

#[test]
fn test_selection_point_date_only() {
    let date = ymd(2024, 1, 15);
    let point = SelectionPoint::date_only(date);

    assert_eq!(point.date(), date);
    assert!(point.time().is_none());
    assert!(point.is_date_only());
}

#[test]
fn test_selection_point_with_time() {
    let date = ymd(2024, 1, 15);
    let time = hms(9, 30, 0);
    let point = SelectionPoint::with_time(date, time);

    assert_eq!(point.date(), date);
    assert_eq!(point.time(), Some(time));
    assert!(!point.is_date_only());
}

#[test]
fn test_selection_state_start() {
    let mut state = SelectionState::new();
    let date = ymd(2024, 1, 15);

    state.start(date);

    assert!(state.is_active);
    assert_eq!(state.start_date(), Some(date));
    assert_eq!(state.end_date(), Some(date));
}

#[test]
fn test_selection_state_start_with_time() {
    let mut state = SelectionState::new();
    let date = ymd(2024, 1, 15);
    let time = hms(9, 0, 0);

    state.start_with_time(date, time);

    assert!(state.is_active);
    let range = state.get_range().unwrap();
    assert_eq!(range.start_time(), Some(time));
}

#[test]
fn test_selection_state_update() {
    let mut state = SelectionState::new();
    let start = ymd(2024, 1, 15);
    let end = ymd(2024, 1, 18);

    state.start(start);
    state.update(end);

    assert!(state.is_active);
    assert_eq!(state.start_date(), Some(start));
    assert_eq!(state.end_date(), Some(end));
}

#[test]
fn test_selection_state_end() {
    let mut state = SelectionState::new();
    let start = ymd(2024, 1, 15);
    let end = ymd(2024, 1, 18);

    state.start(start);
    state.update(end);
    let range = state.end();

    assert!(!state.is_active);
    assert!(range.is_some());
    let range = range.unwrap();
    assert_eq!(range.start_date(), start);
    assert_eq!(range.end_date(), end);
}

#[test]
fn test_selection_state_end_twice() {
    let mut state = SelectionState::new();

    state.start(ymd(2024, 1, 15));
    assert!(state.end().is_some());
    assert!(!state.is_active);
    assert!(state.end().is_none());
}

#[test]
fn test_selection_range_normalized() {
    let early = ymd(2024, 1, 10);
    let late = ymd(2024, 1, 20);

    // Forward selection
    let range1 = SelectionRange::from_dates(early, late);
    assert_eq!(range1.start_date(), early);
    assert_eq!(range1.end_date(), late);

    // Backward selection (dragging up/left)
    let range2 = SelectionRange::from_dates(late, early);
    assert_eq!(range2.start_date(), early);
    assert_eq!(range2.end_date(), late);
}

#[test]
fn test_selection_range_contains() {
    let start = ymd(2024, 1, 10);
    let end = ymd(2024, 1, 15);
    let range = SelectionRange::from_dates(start, end);

    assert!(range.contains_date(start));
    assert!(range.contains_date(end));
    assert!(range.contains_date(ymd(2024, 1, 12)));
    assert!(!range.contains_date(ymd(2024, 1, 9)));
    assert!(!range.contains_date(ymd(2024, 1, 16)));
}

#[test]
fn test_selection_range_is_multi_day() {
    let date1 = ymd(2024, 1, 10);
    let date2 = ymd(2024, 1, 15);

    let single = SelectionRange::from_dates(date1, date1);
    assert!(!single.is_multi_day());

    let multi = SelectionRange::from_dates(date1, date2);
    assert!(multi.is_multi_day());
}

#[test]
fn test_selection_range_day_count() {
    let start = ymd(2024, 1, 10);
    let end = ymd(2024, 1, 15);
    let range = SelectionRange::from_dates(start, end);

    assert_eq!(range.day_count(), 6); // 10, 11, 12, 13, 14, 15
}

#[test]
fn test_selection_range_dates_iterator() {
    let start = ymd(2024, 1, 10);
    let end = ymd(2024, 1, 12);
    let range = SelectionRange::from_dates(start, end);

    let dates = range.dates();
    assert_eq!(dates.len(), 3);
    assert_eq!(dates[0], ymd(2024, 1, 10));
    assert_eq!(dates[1], ymd(2024, 1, 11));
    assert_eq!(dates[2], ymd(2024, 1, 12));
}

#[test]
fn test_selection_range_mixed_granularity() {
    // A date-only point sorts before a timed point on the same date.
    let date = ymd(2024, 1, 10);
    let p_date_only = SelectionPoint::date_only(date);
    let p_timed = SelectionPoint::with_time(date, hms(0, 0, 0));

    let range = SelectionRange::new(p_timed, p_date_only);
    assert_eq!(range.start_time(), None);
    assert_eq!(range.end_time(), Some(hms(0, 0, 0)));
}

#[test]
fn test_selection_state_cancel() {
    let mut state = SelectionState::new();
    let date = ymd(2024, 1, 15);

    state.start(date);
    assert!(state.is_active);

    state.cancel();
    assert!(!state.is_active);
    assert!(state.start_date().is_none());
    assert!(state.end_date().is_none());
}

#[test]
fn test_contains_time_single_day() {
    let mut state = SelectionState::new();
    let date = ymd(2024, 1, 15);

    state.start_with_time(date, hms(9, 0, 0));
    state.update_with_time(date, hms(14, 0, 0));

    assert!(!state.contains_time(date, 8));
    assert!(state.contains_time(date, 9));
    assert!(state.contains_time(date, 13));
    // The 14:00 cell spans 14:00 to 14:59 and so overlaps the endpoint.
    assert!(state.contains_time(date, 14));
    assert!(!state.contains_time(date, 15));
}

#[test]
fn test_contains_time_multi_day() {
    let mut state = SelectionState::new();
    let first = ymd(2024, 1, 10);
    let middle = ymd(2024, 1, 11);
    let last = ymd(2024, 1, 12);

    state.start_with_time(first, hms(22, 0, 0));
    state.update_with_time(last, hms(2, 0, 0));

    assert!(state.contains_time(first, 23));
    assert!(!state.contains_time(first, 21));
    assert!(state.contains_time(middle, 0));
    assert!(state.contains_time(middle, 12));
    assert!(state.contains_time(last, 1));
    assert!(!state.contains_time(last, 3));
    assert!(!state.contains_time(ymd(2024, 1, 9), 12));
}

#[test]
fn test_handle_selection_end_month_view() {
    let mut state = SelectionState::new();
    handle_selection_start(&mut state, ymd(2024, 1, 10));
    let r = handle_selection_end(&mut state, CalendarView::Month);

    assert_eq!(
        r,
        Some(SelectionEnd::CreateRange {
            start: ymd(2024, 1, 10),
            end: ymd(2024, 1, 10),
        })
    );
    assert!(!state.is_active);
    assert!(handle_selection_end(&mut state, CalendarView::Month).is_none());
}

#[test]
fn test_handle_selection_end_year_view() {
    let mut state = SelectionState::new();
    handle_selection_start(&mut state, ymd(2024, 3, 5));
    let r = handle_selection_end(&mut state, CalendarView::Year);

    assert_eq!(r, Some(SelectionEnd::SelectDate { date: ymd(2024, 3, 5) }));
}

#[test]
fn test_handle_selection_cancel_resets() {
    let mut state = SelectionState::new();
    handle_selection_start(&mut state, ymd(2024, 1, 10));
    handle_selection_cancel(&mut state);

    assert!(!state.is_active);
    assert!(state.start_date().is_none());
}

#[test]
fn test_handle_time_selection_end_with_drag() {
    let mut state = SelectionState::new();
    let date = ymd(2024, 1, 15);

    handle_time_selection_start(&mut state, date, hms(11, 0, 0));
    handle_time_selection_update(&mut state, date, hms(9, 0, 0));
    let r = handle_time_selection_end(&mut state);

    // The times come back ordered even when the drag ran upwards; the
    // range normalization already swapped the points, so the earlier time
    // is the start.
    assert_eq!(
        r,
        Some(QuickTimedEvent {
            date,
            start_time: hms(9, 0, 0),
            end_time: hms(11, 0, 0),
        })
    );
    assert!(!state.is_active);
}

#[test]
fn test_handle_time_selection_end_without_drag() {
    let mut state = SelectionState::new();
    let date = ymd(2024, 1, 15);

    // A plain click: press and release on the same cell.
    handle_time_selection_start(&mut state, date, hms(9, 0, 0));
    let r = handle_time_selection_end(&mut state);

    assert!(r.is_none());
    assert!(!state.is_active);

    // And nothing at all without a selection.
    assert!(handle_time_selection_end(&mut state).is_none());
}

#[test]
fn test_time_accessors() {
    let t = hms(9, 30, 15);
    assert_eq!(t.hour(), 9);
    assert_eq!(t.minute(), 30);
    assert_eq!(t.second(), 15);
    assert_eq!(t.minutes_of_day(), 570);

    assert!(Time::from_hms_opt(24, 0, 0).is_none());
    assert!(Time::from_hms_opt(0, 60, 0).is_none());
    assert!(Time::from_hms_opt(0, 0, 60).is_none());

    assert_eq!(ymd(2024, 1, 10).days_until(&ymd(2024, 1, 15)), 5);
}

#[test]
fn test_queries_inactive_state() {
    // An inactive state still holding points — reachable only by hand —
    // answers every query as if nothing were selected.
    let date = ymd(2024, 1, 15);
    let state = SelectionState {
        start: Some(SelectionPoint::date_only(date)),
        end: Some(SelectionPoint::date_only(date)),
        is_active: false,
    };

    assert!(state.get_range().is_none());
    assert!(!state.contains(date));
    assert!(!state.is_multi_day());
    assert!(!state.contains_time(date, 12));
}
