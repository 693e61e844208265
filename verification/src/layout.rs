//! Column layout for overlapping timed events (week and day views), and
//! the helpers that prepare a week's events for it.

use vstd::prelude::*;

use crate::date_time::Date;
use crate::date_time::{spec_opt_time_le, spec_opt_time_lt, opt_time_le, opt_time_eq};
use crate::event::{DayEvents, DisplayEvent};

verus! {

/// An event with its calculated column position for overlap handling.
#[derive(Debug)]
pub struct PositionedEvent {
    /// The event being positioned.
    pub event: DisplayEvent,
    /// The display column the event was assigned.
    pub column: usize,
    /// One more than the highest column among the event and everything it
    /// overlaps: the denominator for proportional-width rendering.
    pub total_columns: usize,
}

impl Clone for PositionedEvent {
    /// A clone carries exactly the same fields.
    fn clone(&self) -> (r: Self)
        ensures
            r == *self,
    {
        PositionedEvent {
            event: self.event.clone(),
            column: self.column,
            total_columns: self.total_columns,
        }
    }
}

/// Start of an event's hour-grid range in minutes from midnight: its start
/// time, or midnight when it has none.
pub open spec fn spec_range_start(e: DisplayEvent) -> int {
    match e.start_time {
        Some(t) => t.secs as int / 60,
        None => 0,
    }
}

/// End of an event's hour-grid range in minutes from midnight: its end
/// time, an hour after the start when it has none, and never closer to the
/// start than half an hour.
pub open spec fn spec_range_end(e: DisplayEvent) -> int {
    let start = spec_range_start(e);
    let end = match e.end_time {
        Some(t) => t.secs as int / 60,
        None => start + 60,
    };
    if end <= start {
        start + 30
    } else {
        end
    }
}

/// The time range of an event in minutes from midnight, for laying the
/// event out on the hour grid.
pub fn event_time_range(event: &DisplayEvent) -> (r: (u32, u32))
    ensures
        r.0 == spec_range_start(*event),
        r.1 == spec_range_end(*event),
        r.0 < r.1,
{
    let start: u32 = match &event.start_time {
        Some(t) => t.minutes_of_day(),
        None => 0,
    };
    let end: u32 = match &event.end_time {
        Some(t) => t.minutes_of_day(),
        None => start + 60,
    };

    // Ensure the end lies after the start.
    let end: u32 = if end <= start {
        start + 30
    } else {
        end
    };

    (start, end)
}

/// Whether two events overlap in time: both must carry a start and an end
/// time, and each must start before the other ends.  Touching endpoints do
/// not overlap.
pub open spec fn spec_events_overlap(e1: DisplayEvent, e2: DisplayEvent) -> bool {
    &&& e1.start_time is Some
    &&& e1.end_time is Some
    &&& e2.start_time is Some
    &&& e2.end_time is Some
    &&& e1.start_time.unwrap().secs < e2.end_time.unwrap().secs
    &&& e2.start_time.unwrap().secs < e1.end_time.unwrap().secs
}

/// Executable form of [`spec_events_overlap`].
pub fn events_overlap(e1: &DisplayEvent, e2: &DisplayEvent) -> (r: bool)
    ensures
        r == spec_events_overlap(*e1, *e2),
{
    match (&e1.start_time, &e1.end_time, &e2.start_time, &e2.end_time) {
        (Some(start1), Some(end1), Some(start2), Some(end2)) => {
            start1.secs < end2.secs && start2.secs < end1.secs
        },
        _ => false,
    }
}

/// The order events are packed in: by start time, then by end time, a
/// missing time before any set one.
pub open spec fn spec_key_le(a: DisplayEvent, b: DisplayEvent) -> bool {
    spec_opt_time_lt(a.start_time, b.start_time) || (a.start_time == b.start_time
        && spec_opt_time_le(a.end_time, b.end_time))
}

/// Executable form of [`spec_key_le`].
fn key_le(a: &DisplayEvent, b: &DisplayEvent) -> (r: bool)
    ensures
        r == spec_key_le(*a, *b),
{
    if opt_time_eq(&a.start_time, &b.start_time) {
        opt_time_le(&a.end_time, &b.end_time)
    } else {
        opt_time_le(&a.start_time, &b.start_time)
    }
}

/// The packing order is total and transitive.
proof fn lemma_key_le_order(a: DisplayEvent, b: DisplayEvent, c: DisplayEvent)
    ensures
        spec_key_le(a, b) || spec_key_le(b, a),
        (spec_key_le(a, b) && spec_key_le(b, c)) ==> spec_key_le(a, c),
{
}

/// Start of an event's packed range in seconds from midnight: its start
/// time, or midnight when it has none.
pub open spec fn spec_packed_start(e: DisplayEvent) -> int {
    match e.start_time {
        Some(t) => t.secs as int,
        None => 0,
    }
}

/// End of an event's packed range in seconds from midnight: its end
/// time, an hour after the start when it has none, and never closer to
/// the start than half an hour.
pub open spec fn spec_packed_end(e: DisplayEvent) -> int {
    let start = spec_packed_start(e);
    let end = match e.end_time {
        Some(t) => t.secs as int,
        None => start + 3600,
    };
    if end <= start {
        start + 1800
    } else {
        end
    }
}

/// The packed ranges of two events share time: each starts before the
/// other ends.  The packing keeps such events in different columns.
pub open spec fn spec_packed_overlap(e1: DisplayEvent, e2: DisplayEvent) -> bool {
    spec_packed_start(e1) < spec_packed_end(e2) && spec_packed_start(e2) < spec_packed_end(e1)
}

/// Events that overlap in time overlap as packed ranges too: the packed
/// range starts at the start time and never ends before the end time.
proof fn lemma_overlap_packed(e1: DisplayEvent, e2: DisplayEvent)
    requires
        spec_events_overlap(e1, e2),
    ensures
        spec_packed_overlap(e1, e2),
{
}

/// Events earlier in the packing order never start later.
proof fn lemma_key_le_packed_start(a: DisplayEvent, b: DisplayEvent)
    requires
        spec_key_le(a, b),
    ensures
        spec_packed_start(a) <= spec_packed_start(b),
{
}

/// Stable insertion sort by the packing order.
fn sort_events(events: &Vec<DisplayEvent>) -> (r: Vec<DisplayEvent>)
    ensures
        r@.len() == events@.len(),
        r@.to_multiset() == events@.to_multiset(),
        forall|i: int, j: int| 0 <= i < j < r@.len() ==> spec_key_le(r@[i], r@[j]),
{
    let mut r: Vec<DisplayEvent> = Vec::new();
    let mut k: usize = 0;
    proof {
        assert(events@.subrange(0, 0) =~= Seq::<DisplayEvent>::empty());
        assert(r@.to_multiset() =~= events@.subrange(0, 0).to_multiset());
    }
    while k < events.len()
        invariant
            k <= events@.len(),
            r@.len() == k,
            r@.to_multiset() == events@.subrange(0, k as int).to_multiset(),
            forall|i: int, j: int| 0 <= i < j < r@.len() ==> spec_key_le(r@[i], r@[j]),
        decreases events@.len() - k,
    {
        let e = events[k].clone();
        let ghost r_before = r@;
        let mut pos: usize = 0;
        while pos < r.len() && key_le(&r[pos], &e)
            invariant
                pos <= r@.len(),
                forall|i: int| 0 <= i < pos ==> spec_key_le(r@[i], e),
            decreases r@.len() - pos,
        {
            pos = pos + 1;
        }
        proof {
            if pos < r@.len() {
                lemma_key_le_order(r@[pos as int], e, e);
                assert forall|j: int| pos <= j < r@.len() implies spec_key_le(e, r@[j]) by {
                    lemma_key_le_order(e, r@[pos as int], r@[j]);
                }
            }
        }
        r.insert(pos, e);
        proof {
            vstd::seq_lib::to_multiset_insert(r_before, pos as int, e);
            vstd::seq_lib::to_multiset_build(events@.subrange(0, k as int), events@[k as int]);
            assert(events@.subrange(0, k as int).push(events@[k as int]) =~= events@.subrange(
                0,
                k as int + 1,
            ));
        }
        k = k + 1;
    }
    proof {
        assert(events@.subrange(0, events@.len() as int) =~= events@);
        vstd::seq_lib::to_multiset_len::<DisplayEvent>(events@);
        vstd::seq_lib::to_multiset_len::<DisplayEvent>(r@);
    }
    r
}

/// The events listed for day `d`: those of the first entry carrying `d`,
/// or none when no entry does.
pub open spec fn spec_day_lookup(s: Seq<DayEvents>, d: Date) -> Seq<DisplayEvent>
    decreases s.len(),
{
    if s.len() == 0 {
        Seq::empty()
    } else if s[0].date == d {
        s[0].events@
    } else {
        spec_day_lookup(s.drop_first(), d)
    }
}

/// The index of the first entry for day `d`, scanned from the back so the
/// front-recursive [`spec_day_lookup`] falls out of the loop invariant.
fn find_day_entry(days: &Vec<DayEvents>, d: Date) -> (r: Option<usize>)
    ensures
        match r {
            Some(j) => j < days@.len() && days@[j as int].date == d && spec_day_lookup(days@, d)
                == days@[j as int].events@,
            None => spec_day_lookup(days@, d) == Seq::<DisplayEvent>::empty(),
        },
{
    let n = days.len();
    let mut i: usize = n;
    let mut found: Option<usize> = None;
    proof {
        assert(days@.subrange(n as int, n as int) =~= Seq::<DayEvents>::empty());
    }
    while i > 0
        invariant
            i <= n,
            n == days@.len(),
            match found {
                Some(j) => j < n && days@[j as int].date == d && spec_day_lookup(
                    days@.subrange(i as int, n as int),
                    d,
                ) == days@[j as int].events@,
                None => spec_day_lookup(days@.subrange(i as int, n as int), d) == Seq::<
                    DisplayEvent,
                >::empty(),
            },
        decreases i,
    {
        i = i - 1;
        if days[i].date.days == d.days {
            found = Some(i);
        }
        proof {
            assert(days@.subrange(i as int, n as int).drop_first() =~= days@.subrange(
                i as int + 1,
                n as int,
            ));
        }
    }
    proof {
        assert(days@.subrange(0, n as int) =~= days@);
    }
    found
}

/// The all-day events of `s`, in order.
pub open spec fn spec_all_day_of(s: Seq<DisplayEvent>) -> Seq<DisplayEvent> {
    s.filter(|e: DisplayEvent| e.all_day)
}

/// The timed events of `s`, in order.
pub open spec fn spec_timed_of(s: Seq<DisplayEvent>) -> Seq<DisplayEvent> {
    s.filter(|e: DisplayEvent| !e.all_day)
}

/// Both filters leave nothing of an empty list.
proof fn lemma_filter_empty()
    ensures
        spec_all_day_of(Seq::<DisplayEvent>::empty()) == Seq::<DisplayEvent>::empty(),
        spec_timed_of(Seq::<DisplayEvent>::empty()) == Seq::<DisplayEvent>::empty(),
{
    reveal(Seq::filter);
}

/// The two filters together keep every event exactly once.
pub(crate) proof fn lemma_partition_lengths(s: Seq<DisplayEvent>)
    ensures
        spec_all_day_of(s).len() + spec_timed_of(s).len() == s.len(),
    decreases s.len(),
{
    reveal(Seq::filter);
    if s.len() > 0 {
        lemma_partition_lengths(s.drop_last());
    }
}

/// The timed events of `events`, in order.
pub(crate) fn filter_timed(events: &Vec<DisplayEvent>) -> (r: Vec<DisplayEvent>)
    ensures
        r@ == spec_timed_of(events@),
{
    filter_all_day(events, false)
}

/// Keep the events of `entry` that `keep_all_day` selects, in order.
fn filter_all_day(entry: &Vec<DisplayEvent>, keep_all_day: bool) -> (r: Vec<DisplayEvent>)
    ensures
        keep_all_day ==> r@ == spec_all_day_of(entry@),
        !keep_all_day ==> r@ == spec_timed_of(entry@),
{
    let mut r: Vec<DisplayEvent> = Vec::new();
    let mut i: usize = 0;
    proof {
        assert(entry@.subrange(0, 0) =~= Seq::<DisplayEvent>::empty());
        lemma_filter_empty();
    }
    while i < entry.len()
        invariant
            i <= entry@.len(),
            keep_all_day ==> r@ == spec_all_day_of(entry@.subrange(0, i as int)),
            !keep_all_day ==> r@ == spec_timed_of(entry@.subrange(0, i as int)),
        decreases entry@.len() - i,
    {
        let keep = if keep_all_day {
            entry[i].all_day
        } else {
            !entry[i].all_day
        };
        if keep {
            r.push(entry[i].clone());
        }
        proof {
            reveal(Seq::filter);
            assert(entry@.subrange(0, i as int + 1).drop_last() =~= entry@.subrange(0, i as int));
            assert(entry@.subrange(0, i as int + 1).last() == entry@[i as int]);
        }
        i = i + 1;
    }
    proof {
        assert(entry@.subrange(0, entry@.len() as int) =~= entry@);
    }
    r
}

/// Split a week's events into all-day and timed ones: for each day of the
/// week, in order, one entry with that day's all-day events and one with
/// its timed events, order preserved.
pub fn separate_events(events_by_date: &Vec<DayEvents>, week_days: &Vec<Date>) -> (r: (
    Vec<DayEvents>,
    Vec<DayEvents>,
))
    ensures
        r.0@.len() == week_days@.len(),
        r.1@.len() == week_days@.len(),
        forall|i: int|
            0 <= i < week_days@.len() ==> (#[trigger] r.0@[i].date == week_days@[i]
                && r.0@[i].events@ == spec_all_day_of(
                spec_day_lookup(events_by_date@, week_days@[i]),
            )),
        forall|i: int|
            0 <= i < week_days@.len() ==> (#[trigger] r.1@[i].date == week_days@[i]
                && r.1@[i].events@ == spec_timed_of(
                spec_day_lookup(events_by_date@, week_days@[i]),
            )),
{
    let mut all_day: Vec<DayEvents> = Vec::new();
    let mut timed: Vec<DayEvents> = Vec::new();
    let mut i: usize = 0;
    while i < week_days.len()
        invariant
            i <= week_days@.len(),
            all_day@.len() == i,
            timed@.len() == i,
            forall|j: int|
                0 <= j < i ==> (#[trigger] all_day@[j].date == week_days@[j]
                    && all_day@[j].events@ == spec_all_day_of(
                    spec_day_lookup(events_by_date@, week_days@[j]),
                )),
            forall|j: int|
                0 <= j < i ==> (#[trigger] timed@[j].date == week_days@[j] && timed@[j].events@
                    == spec_timed_of(spec_day_lookup(events_by_date@, week_days@[j]))),
        decreases week_days@.len() - i,
    {
        let day = week_days[i];
        let (day_all, day_timed) = match find_day_entry(events_by_date, day) {
            Some(j) => {
                let entry = &events_by_date[j].events;
                (filter_all_day(entry, true), filter_all_day(entry, false))
            },
            None => {
                proof {
                    lemma_filter_empty();
                }
                (Vec::new(), Vec::new())
            },
        };
        proof {
            assert(day == week_days@[i as int]);
            assert(day_all@ == spec_all_day_of(spec_day_lookup(events_by_date@, day)));
            assert(day_timed@ == spec_timed_of(spec_day_lookup(events_by_date@, day)));
        }
        all_day.push(DayEvents { date: day, events: day_all });
        timed.push(DayEvents { date: day, events: day_timed });
        proof {
            assert(all_day@[i as int].date == week_days@[i as int]);
            assert(all_day@[i as int].events@ == spec_all_day_of(
                spec_day_lookup(events_by_date@, week_days@[i as int]),
            ));
            assert(timed@[i as int].date == week_days@[i as int]);
            assert(timed@[i as int].events@ == spec_timed_of(
                spec_day_lookup(events_by_date@, week_days@[i as int]),
            ));
        }
        i = i + 1;
    }
    (all_day, timed)
}

/// The number of all-day slot rows a week needs: the largest per-day event
/// count, zero when every day is empty.
pub fn calculate_max_all_day_slots(all_day_events: &Vec<DayEvents>) -> (r: usize)
    ensures
        forall|i: int|
            0 <= i < all_day_events@.len() ==> #[trigger] all_day_events@[i].events@.len() <= r,
        r == 0 || exists|i: int|
            0 <= i < all_day_events@.len() && #[trigger] all_day_events@[i].events@.len() == r,
{
    let mut r: usize = 0;
    let mut i: usize = 0;
    while i < all_day_events.len()
        invariant
            i <= all_day_events@.len(),
            forall|j: int|
                0 <= j < i ==> #[trigger] all_day_events@[j].events@.len() <= r,
            r == 0 || exists|j: int|
                0 <= j < i && #[trigger] all_day_events@[j].events@.len() == r,
        decreases all_day_events@.len() - i,
    {
        let n = all_day_events[i].events.len();
        if n > r {
            r = n;
        }
        i = i + 1;
    }
    r
}

/// Column `c` was not free for event `i` of `r`: an event placed earlier
/// sits in `c` and its packed range reaches past the start of event
/// `i`'s.
pub open spec fn spec_column_blocked(r: Seq<PositionedEvent>, i: int, c: int) -> bool {
    exists|j: int|
        0 <= j < i && r[j].column == c && spec_packed_end(r[j].event) > spec_packed_start(r[i].event)
}

/// `total_columns` of event `i` is one more than the column of some member
/// of its overlap group (itself included).
pub open spec fn spec_total_from_group(r: Seq<PositionedEvent>, i: int) -> bool {
    exists|j: int|
        0 <= j < r.len() && (j == i || spec_events_overlap(r[i].event, r[j].event))
            && r[i].total_columns == r[j].column + 1
}

/// The first column whose packed ranges all end by second `start_sec`, or
/// the column count when every column is still busy then.
fn find_free_column(column_ends: &Vec<u64>, start_sec: u64) -> (r: usize)
    ensures
        r <= column_ends@.len(),
        forall|c: int| 0 <= c < r ==> column_ends@[c] > start_sec,
        r < column_ends@.len() ==> column_ends@[r as int] <= start_sec,
{
    let mut idx: usize = 0;
    while idx < column_ends.len()
        invariant
            idx <= column_ends@.len(),
            forall|c: int| 0 <= c < idx ==> column_ends@[c] > start_sec,
        decreases column_ends@.len() - idx,
    {
        if column_ends[idx] <= start_sec {
            return idx;
        }
        idx = idx + 1;
    }
    idx
}

/// Second pass: widen each event's `total_columns` to one more than the
/// highest column among itself and every event it overlaps, so that all
/// mutually overlapping events report a consistent denominator.
fn widen_total_columns(placed: &Vec<PositionedEvent>) -> (r: Vec<PositionedEvent>)
    requires
        forall|i: int| 0 <= i < placed@.len() ==> placed@[i].column <= i,
    ensures
        r@.len() == placed@.len(),
        forall|i: int|
            0 <= i < r@.len() ==> (r@[i].event == placed@[i].event
                && r@[i].column == placed@[i].column),
        forall|i: int| 0 <= i < r@.len() ==> r@[i].total_columns > r@[i].column,
        forall|i: int, j: int|
            0 <= i < r@.len() && 0 <= j < r@.len() && spec_events_overlap(
                r@[i].event,
                r@[j].event,
            ) ==> r@[i].total_columns > r@[j].column,
        forall|i: int| 0 <= i < r@.len() ==> spec_total_from_group(r@, i),
{
    let n = placed.len();
    let mut r: Vec<PositionedEvent> = Vec::new();
    let mut i: usize = 0;
    while i < n
        invariant
            n == placed@.len(),
            forall|i2: int| 0 <= i2 < n ==> placed@[i2].column <= i2,
            i <= n,
            r@.len() == i,
            forall|i2: int|
                0 <= i2 < i ==> (r@[i2].event == placed@[i2].event
                    && r@[i2].column == placed@[i2].column),
            forall|i2: int| 0 <= i2 < i ==> r@[i2].total_columns > r@[i2].column,
            forall|i2: int, j: int|
                0 <= i2 < i && 0 <= j < n && spec_events_overlap(
                    placed@[i2].event,
                    placed@[j].event,
                ) ==> r@[i2].total_columns > placed@[j].column,
            forall|i2: int|
                0 <= i2 < i ==> exists|j: int|
                    0 <= j < n && (j == i2 || spec_events_overlap(
                        placed@[i2].event,
                        placed@[j].event,
                    )) && #[trigger] r@[i2].total_columns == #[trigger] placed@[j].column + 1,
        decreases n - i,
    {
        let mut max_col: usize = placed[i].column;
        let ghost mut w: int = i as int;
        let mut j: usize = 0;
        while j < n
            invariant
                n == placed@.len(),
                forall|i2: int| 0 <= i2 < n ==> placed@[i2].column <= i2,
                i < n,
                j <= n,
                max_col >= placed@[i as int].column,
                forall|j2: int|
                    0 <= j2 < j && spec_events_overlap(placed@[i as int].event, placed@[j2].event)
                        ==> max_col >= placed@[j2].column,
                w == i as int || (0 <= w < n && spec_events_overlap(
                    placed@[i as int].event,
                    placed@[w].event,
                )),
                max_col == placed@[w].column,
            decreases n - j,
        {
            if j != i && events_overlap(&placed[i].event, &placed[j].event) {
                if placed[j].column > max_col {
                    max_col = placed[j].column;
                    proof {
                        w = j as int;
                    }
                }
            }
            j = j + 1;
        }
        r.push(
            PositionedEvent {
                event: placed[i].event.clone(),
                column: placed[i].column,
                total_columns: max_col + 1,
            },
        );
        i = i + 1;
    }
    r
}

/// Assign each event a display column so that events that overlap in
/// time never share one, and report per event the column count of its
/// overlap group.
///
/// The result comes back sorted by start time, end time as tie-break, and
/// holds exactly the given events.  Columns are packed greedily in that
/// order over each event's packed range in seconds (a missing end time
/// counts an hour past the start, an end not after the start half an hour
/// past it): each event takes the lowest column whose ranges end by its
/// start — every lower column still holds an earlier event whose range
/// reaches past that start — or opens a new column.  Within one column
/// the packed ranges follow one another without overlap, so overlapping
/// events — whose packed ranges overlap too — always land in different
/// columns.  `total_columns` is one more than the highest column among
/// the event and everything whose times overlap it.
///
/// The pairwise second pass is quadratic; the input is one day's events,
/// tens at most, which this design assumes.
pub fn calculate_event_columns(events: &Vec<DisplayEvent>) -> (r: Vec<PositionedEvent>)
    ensures
        r@.len() == events@.len(),
        r@.map_values(|p: PositionedEvent| p.event).to_multiset() == events@.to_multiset(),
        forall|i: int, j: int| 0 <= i < j < r@.len() ==> spec_key_le(r@[i].event, r@[j].event),
        forall|i: int, j: int|
            0 <= i < j < r@.len() && r@[i].column == r@[j].column ==> spec_packed_end(r@[i].event)
                <= spec_packed_start(r@[j].event),
        forall|i: int, j: int|
            0 <= i < r@.len() && 0 <= j < r@.len() && i != j && spec_packed_overlap(
                r@[i].event,
                r@[j].event,
            ) ==> r@[i].column != r@[j].column,
        forall|i: int, j: int|
            0 <= i < r@.len() && 0 <= j < r@.len() && i != j && spec_events_overlap(
                r@[i].event,
                r@[j].event,
            ) ==> r@[i].column != r@[j].column,
        forall|i: int| 0 <= i < r@.len() ==> r@[i].column <= i,
        forall|i: int, c: int|
            0 <= i < r@.len() && 0 <= c < r@[i].column ==> spec_column_blocked(r@, i, c),
        forall|i: int| 0 <= i < r@.len() ==> r@[i].total_columns > r@[i].column,
        forall|i: int, j: int|
            0 <= i < r@.len() && 0 <= j < r@.len() && spec_events_overlap(
                r@[i].event,
                r@[j].event,
            ) ==> r@[i].total_columns > r@[j].column,
        forall|i: int| 0 <= i < r@.len() ==> spec_total_from_group(r@, i),
{
    let sorted = sort_events(events);
    let ghost s = sorted@;

    let mut placed: Vec<PositionedEvent> = Vec::new();
    // The second each column frees up again: its last event's packed end.
    let mut column_ends: Vec<u64> = Vec::new();
    // Index of the last event placed in each column.
    let ghost mut col_last: Seq<int> = Seq::empty();

    let mut k: usize = 0;
    while k < sorted.len()
        invariant
            sorted@ == s,
            forall|i: int, j: int| 0 <= i < j < s.len() ==> spec_key_le(s[i], s[j]),
            k <= s.len(),
            placed@.len() == k,
            forall|i: int| 0 <= i < k ==> placed@[i].event == s[i],
            forall|i: int| 0 <= i < k ==> placed@[i].column < column_ends@.len(),
            forall|i: int| 0 <= i < k ==> placed@[i].column <= i,
            column_ends@.len() <= k,
            col_last.len() == column_ends@.len(),
            forall|c: int| #![trigger col_last[c]]
                0 <= c < col_last.len() ==> (0 <= col_last[c] < k && placed@[col_last[c]].column
                    == c && column_ends@[c] == spec_packed_end(s[col_last[c]])),
            forall|c: int, j: int|
                0 <= c < col_last.len() && #[trigger] col_last[c] < j && j < k
                    ==> #[trigger] placed@[j].column != c,
            forall|i: int, j: int|
                0 <= i < j < k && placed@[i].column == placed@[j].column ==> spec_packed_end(s[i])
                    <= spec_packed_start(s[j]),
            forall|i: int, c: int|
                0 <= i < k && 0 <= c < placed@[i].column ==> spec_column_blocked(placed@, i, c),
        decreases s.len() - k,
    {
        let e = sorted[k].clone();
        let start_sec: u64 = match &e.start_time {
            Some(t) => t.secs as u64,
            None => 0,
        };
        let end_raw: u64 = match &e.end_time {
            Some(t) => t.secs as u64,
            None => start_sec + 3600,
        };
        // An end not after the start packs as half an hour.
        let end_sec: u64 = if end_raw <= start_sec {
            start_sec + 1800
        } else {
            end_raw
        };
        proof {
            assert(start_sec == spec_packed_start(s[k as int]));
            assert(end_sec == spec_packed_end(s[k as int]));
        }

        let ghost placed0 = placed@;
        let ghost ends0 = column_ends@;
        let ghost cl0 = col_last;
        proof {
            // The column bookkeeping facts, restated over the snapshots.
            assert forall|c: int| #![trigger cl0[c]] 0 <= c < cl0.len() implies (0 <= cl0[c] < k
                && placed0[cl0[c]].column == c && ends0[c] == spec_packed_end(s[cl0[c]])) by {
                assert(0 <= c < col_last.len());
                assert(0 <= col_last[c] < k);
                assert(placed@[col_last[c]].column == c);
                assert(column_ends@[c] == spec_packed_end(s[col_last[c]]));
            }
            assert forall|c: int, j: int| #![trigger cl0[c], placed0[j].column]
                0 <= c < cl0.len() && cl0[c] < j && j < k implies placed0[j].column != c by {
                assert(placed@[j].column != c);
            }
        }

        let pos = find_free_column(&column_ends, start_sec);
        let column: usize = pos;
        if pos < column_ends.len() {
            // Reuse the first free column; it now runs until this event ends.
            column_ends[pos] = end_sec;
            proof {
                col_last = col_last.update(pos as int, k as int);
            }
        } else {
            // No column is free: open a new one.
            column_ends.push(end_sec);
            proof {
                col_last = col_last.push(k as int);
            }
        }
        placed.push(PositionedEvent { event: e, column, total_columns: 0 });

        proof {
            assert(placed@[k as int].event == s[k as int]);
            assert(forall|i: int| 0 <= i < k ==> placed@[i] == placed0[i]);
            // Earlier events in the chosen column end by this event's start.
            assert forall|i: int|
                0 <= i < k && placed0[i].column == column implies spec_packed_end(s[i])
                <= spec_packed_start(s[k as int]) by {
                assert(placed0[i].column < ends0.len());
                let last = cl0[column as int];
                assert(placed0[last].column == column);
                assert(i <= last) by {
                    if i > last {
                        assert(placed0[i].column != column);
                    }
                }
                if i < last {
                    assert(spec_packed_end(s[i]) <= spec_packed_start(s[last]));
                    assert(spec_key_le(s[last], s[k as int]));
                    lemma_key_le_packed_start(s[last], s[k as int]);
                } else {
                    assert(spec_packed_end(s[i]) == ends0[column as int]);
                    assert(ends0[column as int] <= start_sec);
                }
            }
            // Every lower column was still busy at this event's start.
            assert forall|c: int| 0 <= c < column implies spec_column_blocked(
                placed@,
                k as int,
                c,
            ) by {
                assert(cl0.len() == ends0.len());
                assert(0 <= c < cl0.len());
                assert(0 <= cl0[c] < k && placed0[cl0[c]].column == c && ends0[c] == spec_packed_end(
                    s[cl0[c]],
                ));
                let j = cl0[c];
                assert(0 <= j < k);
                assert(placed@[j] == placed0[j]);
                assert(placed@[j].column == c);
                assert(placed@[j].event == s[j]);
                assert(ends0[c] == spec_packed_end(s[j]));
                assert(ends0[c] > start_sec);
                assert(spec_packed_end(placed@[j].event) > spec_packed_start(placed@[k as int].event));
            }
            // The blocked-column facts of earlier events carry over.
            assert forall|i: int, c: int|
                0 <= i < k && 0 <= c < placed@[i].column implies spec_column_blocked(
                placed@,
                i,
                c,
            ) by {
                assert(spec_column_blocked(placed0, i, c));
                let j = choose|j: int|
                    0 <= j < i && placed0[j].column == c && spec_packed_end(placed0[j].event)
                        > spec_packed_start(placed0[i].event);
                assert(placed@[j].column == c);
            }
        }
        k = k + 1;
    }

    let r = widen_total_columns(&placed);

    proof {
        assert(r@.map_values(|p: PositionedEvent| p.event) =~= s);
        assert forall|i: int, j: int| 0 <= i < j < r@.len() implies spec_key_le(
            r@[i].event,
            r@[j].event,
        ) by {
            assert(r@[i].event == placed@[i].event && placed@[i].event == s[i]);
            assert(r@[j].event == placed@[j].event && placed@[j].event == s[j]);
            assert(spec_key_le(s[i], s[j]));
        }
        // Events whose packed ranges overlap never share a column: within
        // one column the later range starts no earlier than the earlier
        // one ends.
        assert forall|i: int, j: int|
            0 <= i < r@.len() && 0 <= j < r@.len() && i != j && spec_packed_overlap(
                r@[i].event,
                r@[j].event,
            ) implies r@[i].column != r@[j].column by {
            if r@[i].column == r@[j].column {
                if i < j {
                    assert(spec_packed_end(s[i]) <= spec_packed_start(s[j]));
                } else {
                    assert(spec_packed_end(s[j]) <= spec_packed_start(s[i]));
                }
            }
        }
        // Overlap in time implies overlap of the packed ranges, so
        // overlapping events never share a column either.
        assert forall|i: int, j: int|
            0 <= i < r@.len() && 0 <= j < r@.len() && i != j && spec_events_overlap(
                r@[i].event,
                r@[j].event,
            ) implies r@[i].column != r@[j].column by {
            lemma_overlap_packed(r@[i].event, r@[j].event);
            if r@[i].column == r@[j].column {
                if i < j {
                    assert(spec_packed_end(s[i]) <= spec_packed_start(s[j]));
                } else {
                    assert(spec_packed_end(s[j]) <= spec_packed_start(s[i]));
                }
            }
        }
        // The blocked-column facts transfer from the packing pass, whose
        // events and columns the second pass kept.
        assert forall|i: int, c: int|
            0 <= i < r@.len() && 0 <= c < r@[i].column implies spec_column_blocked(r@, i, c) by {
            assert(spec_column_blocked(placed@, i, c));
            let j = choose|j: int|
                0 <= j < i && placed@[j].column == c && spec_packed_end(placed@[j].event)
                    > spec_packed_start(placed@[i].event);
            assert(r@[j].column == c);
            assert(r@[j].event == placed@[j].event);
        }
    }
    r
}

} // verus!
