//! Slot layout for multi-day event bars in the month view.
//!
//! Within one week, every spanning event bar gets a vertical slot index
//! that holds across all days the bar covers, so the bar renders as one
//! continuous row.  Slots are handed out first-fit by date-range overlap:
//! unrelated events in non-overlapping ranges share a slot, overlapping
//! ones never do.  Per day, the occupied slots are recorded so the compact
//! renderer can fill the gaps with timed-event indicators and count
//! overflow.

use vstd::prelude::*;

use crate::date_time::Date;

verus! {

/// Days in the week row the month view lays out.
pub const DAYS_PER_WEEK: usize = 7;

/// An inclusive date range, the footprint of a spanning event bar.
#[derive(Clone, Copy, Debug, PartialEq, Eq, Structural)]
pub struct DateRange {
    /// First day of the range.
    pub start: Date,
    /// Last day of the range, on or after the first.
    pub end: Date,
}

impl DateRange {
    /// The range runs forward.
    pub open spec fn wf(self) -> bool {
        self.start.days <= self.end.days
    }
}

/// Two inclusive date ranges share at least one day.
pub open spec fn spec_ranges_overlap(a: DateRange, b: DateRange) -> bool {
    a.start.days <= b.end.days && b.start.days <= a.end.days
}

/// Executable form of [`spec_ranges_overlap`].
pub fn ranges_overlap(a: &DateRange, b: &DateRange) -> (r: bool)
    ensures
        r == spec_ranges_overlap(*a, *b),
{
    a.start.days <= b.end.days && b.start.days <= a.end.days
}

/// Event `i` of `events` covers day column `d` of the week starting at
/// `week_start`.
pub open spec fn spec_covers_day(ev: DateRange, week_start: Date, d: int) -> bool {
    ev.start.days <= week_start.days + d <= ev.end.days
}

/// Slot `s` was not free for event `i`: an event placed earlier holds `s`
/// and its range overlaps event `i`'s.
pub open spec fn spec_slot_blocked(events: Seq<DateRange>, slots: Seq<usize>, i: int, s: int)
    -> bool {
    exists|j: int| 0 <= j < i && #[trigger] slots[j] == s && spec_ranges_overlap(events[j], events[i])
}

/// The slot assignment of one week's spanning events, and which slots are
/// filled on each of its days.
#[derive(Debug)]
pub struct WeekEventSlotInfo {
    /// The slot of each event, in the order the events were given.
    pub slots: Vec<usize>,
    /// For each of the week's seven days, one flag per slot row: whether
    /// an event bar covering that day sits in that slot.  Every row has
    /// one flag per slot row the week uses.
    pub day_occupied_slots: Vec<Vec<bool>>,
}

/// `n` is the number of slot rows `slots` uses: every slot lies below it,
/// and it is zero or topped by an assigned slot.
pub open spec fn spec_is_slot_count(slots: Seq<usize>, n: int) -> bool {
    (forall|i: int| 0 <= i < slots.len() ==> #[trigger] slots[i] < n) && (n == 0 || exists|i: int|
        0 <= i < slots.len() && #[trigger] slots[i] + 1 == n)
}

/// Assign each spanning event of one week a vertical slot, first-fit in
/// the order given: each event takes the lowest slot no earlier
/// overlapping event holds, so overlapping bars never share a slot and
/// non-overlapping ones reuse low slots.  Also records, for each of the
/// week's seven days, which slots are occupied by a bar covering that day.
pub fn compute_week_event_slots(week_start: Date, events: &Vec<DateRange>) -> (r:
    WeekEventSlotInfo)
    ensures
        r.slots@.len() == events@.len(),
        forall|i: int, j: int|
            0 <= i < j < events@.len() && spec_ranges_overlap(events@[i], events@[j])
                ==> r.slots@[i] != r.slots@[j],
        forall|i: int| 0 <= i < events@.len() ==> #[trigger] r.slots@[i] <= i,
        forall|i: int, s: int|
            0 <= i < events@.len() && 0 <= s < r.slots@[i] ==> spec_slot_blocked(
                events@,
                r.slots@,
                i,
                s,
            ),
        r.day_occupied_slots@.len() == DAYS_PER_WEEK,
        forall|d: int|
            0 <= d < DAYS_PER_WEEK ==> spec_is_slot_count(
                r.slots@,
                #[trigger] r.day_occupied_slots@[d]@.len() as int,
            ),
        forall|d: int, s: int|
            0 <= d < DAYS_PER_WEEK && 0 <= s < r.day_occupied_slots@[d]@.len()
                ==> (#[trigger] r.day_occupied_slots@[d]@[s] == exists|i: int|
                0 <= i < events@.len() && spec_covers_day(#[trigger] events@[i], week_start, d)
                    && r.slots@[i] == s),
{
    let n = events.len();
    let mut slots: Vec<usize> = Vec::new();

    // First-fit slot assignment in the order the events were given.
    let mut i: usize = 0;
    while i < n
        invariant
            n == events@.len(),
            i <= n,
            slots@.len() == i,
            forall|i2: int, j2: int|
                0 <= i2 < j2 < i && spec_ranges_overlap(events@[i2], events@[j2])
                    ==> slots@[i2] != slots@[j2],
            forall|i2: int| 0 <= i2 < i ==> #[trigger] slots@[i2] <= i2,
            forall|i2: int, s: int|
                0 <= i2 < i && 0 <= s < slots@[i2] ==> spec_slot_blocked(events@, slots@, i2, s),
        decreases n - i,
    {
        let ghost slots0 = slots@;
        let mut s: usize = 0;
        // Climb until a slot is free of overlapping earlier events; slot
        // `i` is never taken, since earlier events hold slots below their
        // own index.
        loop
            invariant
                n == events@.len(),
                i < n,
                slots@ == slots0,
                slots@.len() == i,
                forall|i2: int| 0 <= i2 < i ==> #[trigger] slots@[i2] <= i2,
                s <= i,
                forall|s2: int| 0 <= s2 < s ==> spec_slot_blocked(events@, slots@, i as int, s2),
            ensures
                slots@ == slots0,
                s <= i,
                forall|s2: int| 0 <= s2 < s ==> spec_slot_blocked(events@, slots@, i as int, s2),
                !spec_slot_blocked(events@, slots@, i as int, s as int),
            decreases i - s,
        {
            let mut conflict: bool = false;
            let mut j: usize = 0;
            while j < i
                invariant
                    n == events@.len(),
                    i < n,
                    j <= i,
                    slots@.len() == i,
                    conflict ==> spec_slot_blocked(events@, slots@, i as int, s as int),
                    !conflict ==> forall|j2: int|
                        0 <= j2 < j ==> !(#[trigger] slots@[j2] == s as usize
                            && spec_ranges_overlap(events@[j2], events@[i as int])),
                decreases i - j,
            {
                if slots[j] == s && ranges_overlap(&events[j], &events[i]) {
                    conflict = true;
                }
                j = j + 1;
            }
            if !conflict {
                break;
            }
            proof {
                // A conflicting occupant holds slot `s`, and every slot an
                // earlier event holds lies below `i`.
                let j2 = choose|j2: int|
                    0 <= j2 < i && #[trigger] slots@[j2] == s as usize && spec_ranges_overlap(
                        events@[j2],
                        events@[i as int],
                    );
                assert(slots@[j2] <= j2);
            }
            s = s + 1;
        }
        slots.push(s);
        proof {
            assert(forall|i2: int| 0 <= i2 < i ==> slots@[i2] == slots0[i2]);
            assert forall|i2: int, s2: int|
                0 <= i2 < i + 1 && 0 <= s2 < slots@[i2] implies spec_slot_blocked(
                events@,
                slots@,
                i2,
                s2,
            ) by {
                if i2 < i {
                    assert(spec_slot_blocked(events@, slots0, i2, s2));
                    let j2 = choose|j2: int|
                        0 <= j2 < i2 && #[trigger] slots0[j2] == s2 as usize && spec_ranges_overlap(
                            events@[j2],
                            events@[i2],
                        );
                    assert(slots@[j2] == s2);
                } else {
                    assert(spec_slot_blocked(events@, slots0, i as int, s2));
                    let j2 = choose|j2: int|
                        0 <= j2 < i && #[trigger] slots0[j2] == s2 as usize && spec_ranges_overlap(
                            events@[j2],
                            events@[i as int],
                        );
                    assert(slots@[j2] == s2);
                }
            }
            assert forall|i2: int, j2: int|
                0 <= i2 < j2 < i + 1 && spec_ranges_overlap(events@[i2], events@[j2])
                implies slots@[i2] != slots@[j2] by {
                if j2 == i as int && slots@[i2] == slots@[j2] {
                    assert(spec_slot_blocked(events@, slots0, i as int, slots@[i2] as int)
                        == false);
                    assert(slots0[i2] == slots@[i2]);
                }
            }
        }
        i = i + 1;
    }

    // The number of slot rows the week uses.
    let mut n_slots: usize = 0;
    let mut i2: usize = 0;
    while i2 < n
        invariant
            n == slots@.len(),
            i2 <= n,
            forall|k: int| 0 <= k < n ==> #[trigger] slots@[k] <= k,
            forall|k: int| 0 <= k < i2 ==> #[trigger] slots@[k] < n_slots,
            n_slots == 0 || exists|k: int| 0 <= k < i2 && #[trigger] slots@[k] + 1 == n_slots,
        decreases n - i2,
    {
        if slots[i2] >= n_slots {
            n_slots = slots[i2] + 1;
        }
        i2 = i2 + 1;
    }

    // Per-day occupancy: one flag per slot row and day of the week.
    let mut day_occupied_slots: Vec<Vec<bool>> = Vec::new();
    let mut d: usize = 0;
    while d < DAYS_PER_WEEK
        invariant
            n == events@.len(),
            n == slots@.len(),
            spec_is_slot_count(slots@, n_slots as int),
            day_occupied_slots@.len() == d,
            d <= DAYS_PER_WEEK,
            forall|d2: int|
                0 <= d2 < d ==> #[trigger] day_occupied_slots@[d2]@.len() == n_slots,
            forall|d2: int, s: int|
                0 <= d2 < d && 0 <= s < n_slots ==> (#[trigger] day_occupied_slots@[d2]@[s]
                    == exists|k: int|
                    0 <= k < events@.len() && spec_covers_day(#[trigger] events@[k], week_start, d2)
                        && slots@[k] == s),
        decreases DAYS_PER_WEEK - d,
    {
        let mut row: Vec<bool> = Vec::new();
        let mut s: usize = 0;
        while s < n_slots
            invariant
                n == events@.len(),
                n == slots@.len(),
                s <= n_slots,
                row@.len() == s,
                d < DAYS_PER_WEEK,
                forall|s2: int|
                    0 <= s2 < s ==> (#[trigger] row@[s2] == exists|k: int|
                        0 <= k < events@.len() && spec_covers_day(
                            #[trigger] events@[k],
                            week_start,
                            d as int,
                        ) && slots@[k] == s2),
            decreases n_slots - s,
        {
            let mut occupied: bool = false;
            let mut k: usize = 0;
            while k < n
                invariant
                    n == events@.len(),
                    n == slots@.len(),
                    k <= n,
                    d < DAYS_PER_WEEK,
                    occupied == exists|k2: int|
                        0 <= k2 < k && spec_covers_day(#[trigger] events@[k2], week_start, d as int)
                            && slots@[k2] == s as usize,
                decreases n - k,
            {
                let day_number: i64 = (week_start.days as i64) + (d as i64);
                let ev = &events[k];
                if (ev.start.days as i64) <= day_number && day_number <= (ev.end.days as i64)
                    && slots[k] == s {
                    occupied = true;
                }
                k = k + 1;
            }
            row.push(occupied);
            s = s + 1;
        }
        day_occupied_slots.push(row);
        d = d + 1;
    }

    WeekEventSlotInfo { slots, day_occupied_slots }
}

} // verus!
