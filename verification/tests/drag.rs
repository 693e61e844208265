use calendar_core::date_time::{Date, Time};
use calendar_core::drag::EventDragState;
use chrono::Datelike;

fn ymd(year: i32, month: u32, day: u32) -> Date {
    Date {
        days: chrono::NaiveDate::from_ymd_opt(year, month, day)
            .unwrap()
            .num_days_from_ce(),
    }
}

fn hms(hour: u32, minute: u32, second: u32) -> Time {
    Time::from_hms_opt(hour, minute, second).unwrap()
}

#[test]
fn test_event_drag_state_start() {
    let mut state = EventDragState::new();
    let date = ymd(2024, 1, 15);

    state.start(
        "event-123".to_string(),
        date,
        "Test Event".to_string(),
        "#0000ff".to_string(),
    );

    assert!(state.is_active);
    assert_eq!(state.event_uid, Some("event-123".to_string()));
    assert_eq!(state.original_date, Some(date));
    assert_eq!(state.target_date(), Some(date));
    assert_eq!(state.event_summary(), Some("Test Event"));
    assert_eq!(state.event_color(), Some("#0000ff"));
}

#[test]
fn test_event_drag_state_start_with_time() {
    let mut state = EventDragState::new();
    let date = ymd(2024, 1, 15);
    let time = hms(9, 0, 0);

    state.start_with_time(
        "event-123".to_string(),
        date,
        time,
        "Test Event".to_string(),
        "#0000ff".to_string(),
    );

    assert!(state.is_active);
    assert_eq!(state.original_time, Some(time));
    assert_eq!(state.target_time(), Some(time));
}

#[test]
fn test_event_drag_state_update() {
    let mut state = EventDragState::new();
    let original = ymd(2024, 1, 15);
    let target = ymd(2024, 1, 18);

    state.start(
        "event-123".to_string(),
        original,
        "Test Event".to_string(),
        "#0000ff".to_string(),
    );
    state.update(target);

    assert!(state.is_active);
    assert_eq!(state.original_date, Some(original));
    assert_eq!(state.target_date(), Some(target));
}

#[test]
fn test_event_drag_state_end_with_move() {
    let mut state = EventDragState::new();
    let original = ymd(2024, 1, 15);
    let target = ymd(2024, 1, 18);

    state.start(
        "event-123".to_string(),
        original,
        "Test Event".to_string(),
        "#0000ff".to_string(),
    );
    state.update(target);
    let result = state.end();

    assert!(!state.is_active);
    assert!(result.is_some());
    let (uid, orig, tgt) = result.unwrap();
    assert_eq!(uid, "event-123");
    assert_eq!(orig, original);
    assert_eq!(tgt, target);
}

#[test]
fn test_event_drag_state_end_same_date() {
    let mut state = EventDragState::new();
    let date = ymd(2024, 1, 15);

    state.start(
        "event-123".to_string(),
        date,
        "Test Event".to_string(),
        "#0000ff".to_string(),
    );
    // Don't update - target stays same as original
    let result = state.end();

    assert!(!state.is_active);
    assert!(result.is_none()); // No move needed
}

#[test]
fn test_event_drag_state_end_with_time() {
    let mut state = EventDragState::new();
    let date = ymd(2024, 1, 15);
    let original_time = hms(9, 0, 0);
    let target_time = hms(14, 0, 0);

    state.start_with_time(
        "event-123".to_string(),
        date,
        original_time,
        "Test Event".to_string(),
        "#0000ff".to_string(),
    );
    state.update_with_time(date, target_time);
    let result = state.end_with_time();

    assert!(!state.is_active);
    assert!(result.is_some());
    let (uid, orig_date, orig_time, tgt_date, tgt_time) = result.unwrap();
    assert_eq!(uid, "event-123");
    assert_eq!(orig_date, date);
    assert_eq!(orig_time, Some(original_time));
    assert_eq!(tgt_date, date);
    assert_eq!(tgt_time, Some(target_time));
}

#[test]
fn test_event_drag_state_get_offset() {
    let mut state = EventDragState::new();
    let original = ymd(2024, 1, 15);
    let target = ymd(2024, 1, 18);

    state.start(
        "event-123".to_string(),
        original,
        "Test Event".to_string(),
        "#0000ff".to_string(),
    );
    state.update(target);

    assert_eq!(state.get_offset(), Some(3)); // 3 days forward
}

#[test]
fn test_event_drag_state_get_offset_backwards() {
    let mut state = EventDragState::new();

    state.start(
        "event-123".to_string(),
        ymd(2024, 1, 15),
        "Test Event".to_string(),
        "#0000ff".to_string(),
    );
    state.update(ymd(2024, 1, 11));

    assert_eq!(state.get_offset(), Some(-4));

    state.cancel();
    assert_eq!(state.get_offset(), None);
}

#[test]
fn test_event_drag_state_cancel() {
    let mut state = EventDragState::new();
    let date = ymd(2024, 1, 15);

    state.start(
        "event-123".to_string(),
        date,
        "Test Event".to_string(),
        "#0000ff".to_string(),
    );
    assert!(state.is_active);

    state.cancel();
    assert!(!state.is_active);
    assert!(state.event_uid.is_none());
    assert!(state.event_summary().is_none());
    assert!(state.event_color().is_none());
}
