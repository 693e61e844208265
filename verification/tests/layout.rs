use calendar_core::date_time::{Date, Time};
use calendar_core::event::{DayEvents, DisplayEvent};
use calendar_core::layout::{
    calculate_event_columns, calculate_max_all_day_slots, event_time_range, events_overlap,
    separate_events,
};
use calendar_core::localized_names::{
    get_month_name, get_month_names, get_weekday_names_full, get_weekday_names_short,
};
use calendar_core::slots::{compute_week_event_slots, DateRange};
use chrono::Datelike;

fn ymd(year: i32, month: u32, day: u32) -> Date {
    Date {
        days: chrono::NaiveDate::from_ymd_opt(year, month, day)
            .unwrap()
            .num_days_from_ce(),
    }
}

fn hm(hour: u32, minute: u32) -> Time {
    Time::from_hms_opt(hour, minute, 0).unwrap()
}

fn timed_event(uid: &str, start: Time, end: Time) -> DisplayEvent {
    DisplayEvent {
        uid: uid.to_string(),
        summary: format!("summary of {}", uid),
        color: "#3B82F6".to_string(),
        all_day: false,
        start_time: Some(start),
        end_time: Some(end),
    }
}

fn all_day_event(uid: &str) -> DisplayEvent {
    DisplayEvent {
        uid: uid.to_string(),
        summary: format!("summary of {}", uid),
        color: "#3B82F6".to_string(),
        all_day: true,
        start_time: None,
        end_time: None,
    }
}

#[test]
fn test_event_time_range_defaults() {
    // Start and end both set: minutes from midnight.
    let e = timed_event("a", hm(9, 30), hm(10, 45));
    assert_eq!(event_time_range(&e), (570, 645));

    // No end time: one hour after the start.
    let mut e = timed_event("a", hm(9, 30), hm(0, 0));
    e.end_time = None;
    assert_eq!(event_time_range(&e), (570, 630));

    // No times at all: the first hour of the day.
    let mut e = timed_event("a", hm(0, 0), hm(0, 0));
    e.start_time = None;
    e.end_time = None;
    assert_eq!(event_time_range(&e), (0, 60));

    // End not after start: clamped to half an hour.
    let e = timed_event("a", hm(10, 0), hm(9, 0));
    assert_eq!(event_time_range(&e), (600, 630));
}

#[test]
fn test_events_overlap() {
    let a = timed_event("a", hm(9, 0), hm(10, 0));
    let b = timed_event("b", hm(9, 30), hm(10, 30));
    let c = timed_event("c", hm(10, 0), hm(11, 0));

    assert!(events_overlap(&a, &b));
    assert!(events_overlap(&b, &a));
    // Touching endpoints do not overlap.
    assert!(!events_overlap(&a, &c));
    assert!(events_overlap(&b, &c));

    // An event without both times never overlaps anything.
    let mut d = timed_event("d", hm(9, 0), hm(10, 0));
    d.end_time = None;
    assert!(!events_overlap(&a, &d));
    assert!(!events_overlap(&d, &a));
}

#[test]
fn test_event_column_layout() {
    let events = vec![
        timed_event("a", hm(9, 0), hm(10, 0)),
        timed_event("b", hm(9, 30), hm(10, 30)),
        timed_event("c", hm(10, 0), hm(11, 0)),
    ];

    let positioned = calculate_event_columns(&events);
    assert_eq!(positioned.len(), 3);

    // The result keeps the start-time order.
    assert_eq!(positioned[0].event.uid, "a");
    assert_eq!(positioned[1].event.uid, "b");
    assert_eq!(positioned[2].event.uid, "c");

    // The first two overlap and take distinct columns.
    assert_eq!(positioned[0].column, 0);
    assert_eq!(positioned[1].column, 1);
    assert_eq!(positioned[0].total_columns, 2);
    assert_eq!(positioned[1].total_columns, 2);

    // The third starts exactly when the first ends and reuses column 0;
    // its width share reflects its overlap with the second event only.
    assert_eq!(positioned[2].column, 0);
    assert_eq!(positioned[2].total_columns, 2);
}

#[test]
fn test_event_column_layout_disjoint() {
    let events = vec![
        timed_event("late", hm(13, 0), hm(14, 0)),
        timed_event("early", hm(9, 0), hm(10, 0)),
    ];

    let positioned = calculate_event_columns(&events);
    assert_eq!(positioned.len(), 2);
    // Sorted by start time, both alone in column 0 at full width.
    assert_eq!(positioned[0].event.uid, "early");
    assert_eq!(positioned[1].event.uid, "late");
    assert_eq!(positioned[0].column, 0);
    assert_eq!(positioned[1].column, 0);
    assert_eq!(positioned[0].total_columns, 1);
    assert_eq!(positioned[1].total_columns, 1);
}

#[test]
fn test_event_column_layout_empty() {
    let events: Vec<DisplayEvent> = Vec::new();
    assert_eq!(calculate_event_columns(&events).len(), 0);
}

#[test]
fn test_separate_events() {
    let monday = ymd(2024, 1, 1);
    let tuesday = ymd(2024, 1, 2);
    let events_by_date = vec![
        DayEvents {
            date: monday,
            events: vec![
                all_day_event("holiday"),
                timed_event("standup", hm(9, 0), hm(9, 15)),
            ],
        },
    ];
    let week_days = vec![monday, tuesday];

    let (all_day, timed) = separate_events(&events_by_date, &week_days);

    assert_eq!(all_day.len(), 2);
    assert_eq!(timed.len(), 2);
    assert_eq!(all_day[0].date, monday);
    assert_eq!(all_day[0].events.len(), 1);
    assert_eq!(all_day[0].events[0].uid, "holiday");
    assert_eq!(timed[0].events.len(), 1);
    assert_eq!(timed[0].events[0].uid, "standup");
    // A day with no entry gets empty lists.
    assert_eq!(all_day[1].events.len(), 0);
    assert_eq!(timed[1].events.len(), 0);
}

#[test]
fn test_calculate_max_all_day_slots() {
    let monday = ymd(2024, 1, 1);
    let tuesday = ymd(2024, 1, 2);
    let all_day = vec![
        DayEvents { date: monday, events: vec![all_day_event("a"), all_day_event("b")] },
        DayEvents { date: tuesday, events: vec![all_day_event("c")] },
    ];

    assert_eq!(calculate_max_all_day_slots(&all_day), 2);

    let empty: Vec<DayEvents> = Vec::new();
    assert_eq!(calculate_max_all_day_slots(&empty), 0);
}

#[test]
fn test_event_slot_layout_reuse() {
    // Monday, January 1st, 2024 starts the week.
    let week_start = ymd(2024, 1, 1);
    // Two bars over disjoint date ranges within the week share slot 0.
    let events = vec![
        DateRange { start: ymd(2024, 1, 1), end: ymd(2024, 1, 3) },
        DateRange { start: ymd(2024, 1, 5), end: ymd(2024, 1, 6) },
    ];

    let info = compute_week_event_slots(week_start, &events);
    assert_eq!(info.slots, vec![0, 0]);
}

#[test]
fn test_event_slot_layout_overlap() {
    let week_start = ymd(2024, 1, 1);
    // Two overlapping bars take slots 0 and 1.
    let events = vec![
        DateRange { start: ymd(2024, 1, 1), end: ymd(2024, 1, 3) },
        DateRange { start: ymd(2024, 1, 2), end: ymd(2024, 1, 6) },
    ];

    let info = compute_week_event_slots(week_start, &events);
    assert_eq!(info.slots, vec![0, 1]);

    // Thursday the 4th lies only in the second bar's range: only its slot
    // is occupied there.
    assert_eq!(info.day_occupied_slots.len(), 7);
    assert_eq!(info.day_occupied_slots[3], vec![false, true]);
    // Tuesday the 2nd lies in both.
    assert_eq!(info.day_occupied_slots[1], vec![true, true]);
    // Sunday the 7th lies in neither.
    assert_eq!(info.day_occupied_slots[6], vec![false, false]);
}

#[test]
fn test_event_slot_layout_freed_slot() {
    let week_start = ymd(2024, 1, 1);
    let events = vec![
        DateRange { start: ymd(2024, 1, 1), end: ymd(2024, 1, 2) },
        DateRange { start: ymd(2024, 1, 1), end: ymd(2024, 1, 4) },
        // Overlaps only the second bar: slot 0 is free again.
        DateRange { start: ymd(2024, 1, 4), end: ymd(2024, 1, 6) },
    ];

    let info = compute_week_event_slots(week_start, &events);
    assert_eq!(info.slots, vec![0, 1, 0]);
}

#[test]
fn test_get_month_names() {
    let names = get_month_names();
    assert_eq!(names.len(), 12);
    assert_eq!(names[0], "January");
    assert_eq!(names[11], "December");
}

#[test]
fn test_get_month_name() {
    assert_eq!(get_month_name(1), "January");
    assert_eq!(get_month_name(5), "May");
    assert_eq!(get_month_name(12), "December");
    assert_eq!(get_month_name(0), "");
    assert_eq!(get_month_name(13), "");
}

#[test]
fn test_get_weekday_names() {
    let full = get_weekday_names_full();
    let short = get_weekday_names_short();
    assert_eq!(full[0], "Monday");
    assert_eq!(full[6], "Sunday");
    assert_eq!(short[0], "Mon");
    assert_eq!(short[5], "Sat");
}

use calendar_core::compact::{plan_compact_events, CompactCell};

#[test]
fn test_plan_compact_events_fills_gaps() {
    // Slot rows 0 and 2 carry spanning bars; row 1 is a gap.
    let day_occupied = vec![true, false, true];
    let events = vec![
        all_day_event("bar"),
        timed_event("ten", hm(10, 0), hm(11, 0)),
        timed_event("nine", hm(9, 0), hm(10, 0)),
        timed_event("eleven", hm(11, 0), hm(12, 0)),
    ];

    let plan = plan_compact_events(&events, 4, &day_occupied, Some(2));

    // Dots draw from the timed events in start order.
    assert_eq!(plan.timed.len(), 3);
    assert_eq!(plan.timed[0].uid, "nine");
    assert_eq!(plan.timed[1].uid, "ten");
    assert_eq!(plan.timed[2].uid, "eleven");

    // Placeholders under the bars, the earliest dot in the gap.
    assert_eq!(plan.cells.len(), 3);
    assert!(matches!(plan.cells[0], CompactCell::Placeholder));
    match &plan.cells[1] {
        CompactCell::Dot(e) => assert_eq!(e.uid, "nine"),
        CompactCell::Placeholder => panic!("expected a dot in the free row"),
    }
    assert!(matches!(plan.cells[2], CompactCell::Placeholder));

    // One visible row is left for the remaining dots.  Four rows are
    // shown for four events — placeholders count, their bar shows an
    // event — so nothing overflows even though "eleven" got no dot.
    assert_eq!(plan.extra_dots.len(), 1);
    assert_eq!(plan.extra_dots[0].uid, "ten");
    assert_eq!(plan.overflow_count, 0);
}

#[test]
fn test_plan_compact_events_cap() {
    let day_occupied = vec![true, false, true];
    let events = vec![
        all_day_event("bar"),
        timed_event("nine", hm(9, 0), hm(10, 0)),
        timed_event("ten", hm(10, 0), hm(11, 0)),
    ];

    let plan = plan_compact_events(&events, 2, &day_occupied, Some(2));

    assert_eq!(plan.cells.len(), 2);
    assert!(matches!(plan.cells[0], CompactCell::Placeholder));
    match &plan.cells[1] {
        CompactCell::Dot(e) => assert_eq!(e.uid, "nine"),
        CompactCell::Placeholder => panic!("expected a dot in the free row"),
    }
    assert_eq!(plan.extra_dots.len(), 0);
    // Three events, two rows shown.
    assert_eq!(plan.overflow_count, 1);
}

#[test]
fn test_plan_compact_events_no_bars() {
    let day_occupied: Vec<bool> = Vec::new();
    let events = vec![
        timed_event("nine", hm(9, 0), hm(10, 0)),
        timed_event("ten", hm(10, 0), hm(11, 0)),
    ];

    let plan = plan_compact_events(&events, 3, &day_occupied, None);

    // No slot rows at all: every dot goes to the trailing row.
    assert_eq!(plan.cells.len(), 0);
    assert_eq!(plan.extra_dots.len(), 2);
    assert_eq!(plan.extra_dots[0].uid, "nine");
    assert_eq!(plan.extra_dots[1].uid, "ten");
    assert_eq!(plan.overflow_count, 0);
}

#[test]
fn test_event_column_layout_default_end() {
    // An event with no end time occupies an hour on the grid, so a later
    // event starting after that hour reuses its column.
    let mut open_end = timed_event("open", hm(9, 0), hm(0, 0));
    open_end.end_time = None;
    let events = vec![open_end, timed_event("late", hm(10, 30), hm(11, 0))];

    let positioned = calculate_event_columns(&events);
    assert_eq!(positioned.len(), 2);
    assert_eq!(positioned[0].event.uid, "open");
    assert_eq!(positioned[1].event.uid, "late");
    assert_eq!(positioned[0].column, 0);
    assert_eq!(positioned[1].column, 0);

    // One starting inside that hour does not.
    let mut open_end = timed_event("open", hm(9, 0), hm(0, 0));
    open_end.end_time = None;
    let events = vec![open_end, timed_event("soon", hm(9, 30), hm(10, 0))];

    let positioned = calculate_event_columns(&events);
    assert_eq!(positioned[1].event.uid, "soon");
    assert_eq!(positioned[1].column, 1);
}

#[test]
fn test_event_column_layout_clamped_range() {
    // An end not after the start packs as half an hour on the grid.
    let events = vec![
        timed_event("odd", hm(9, 0), hm(9, 0)),
        timed_event("after", hm(9, 30), hm(10, 0)),
        timed_event("inside", hm(9, 15), hm(9, 45)),
    ];

    let positioned = calculate_event_columns(&events);
    // Sorted: odd [540,570), inside [555,585), after [570,600).
    assert_eq!(positioned[0].event.uid, "odd");
    assert_eq!(positioned[1].event.uid, "inside");
    assert_eq!(positioned[2].event.uid, "after");
    assert_eq!(positioned[0].column, 0);
    assert_eq!(positioned[1].column, 1);
    // Column 0 frees at 9:30, so "after" reuses it.
    assert_eq!(positioned[2].column, 0);
}

#[test]
fn test_event_column_layout_sub_minute_overlap() {
    // The packing keeps full second precision: one second of overlap
    // across a minute boundary still forces distinct columns.
    let first = timed_event(
        "first",
        Time::from_hms_opt(0, 0, 0).unwrap(),
        Time::from_hms_opt(1, 0, 1).unwrap(),
    );
    let second = timed_event(
        "second",
        Time::from_hms_opt(1, 0, 0).unwrap(),
        Time::from_hms_opt(2, 0, 0).unwrap(),
    );
    let events = vec![first, second];

    let positioned = calculate_event_columns(&events);
    assert_eq!(positioned[0].event.uid, "first");
    assert_eq!(positioned[1].event.uid, "second");
    assert_eq!(positioned[0].column, 0);
    assert_eq!(positioned[1].column, 1);
    assert_eq!(positioned[0].total_columns, 2);
    assert_eq!(positioned[1].total_columns, 2);
}
