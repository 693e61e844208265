//! Planning for the compact event indicators of a crowded day cell.
//!
//! When a month-view cell is too small for full chips, events are shown as
//! small indicators.  Spanning bars already occupy some slot rows of the
//! cell; the timed events fill the gaps between them, one dot per free
//! row, so nothing slides around as bars come and go.  What the cell
//! cannot show is counted as overflow for the "+N" label.

use vstd::prelude::*;

use crate::date_time::{spec_opt_time_le, opt_time_le};
use crate::event::DisplayEvent;
use crate::layout::{spec_all_day_of, spec_timed_of};

verus! {

/// One slot row of a compact cell: either kept clear for the spanning bar
/// drawn over it (or for alignment), or filled with a timed event's dot.
#[derive(Debug)]
pub enum CompactCell {
    /// The row is left to the overlay bar, or stays empty for alignment.
    Placeholder,
    /// The row shows the dot of this timed event.
    Dot(DisplayEvent),
}

/// The plan for one day cell in compact mode.
#[derive(Debug)]
pub struct CompactPlan {
    /// One entry per slot row drawn, top to bottom.
    pub cells: Vec<CompactCell>,
    /// Timed events whose dots follow in a row below the slot rows, when
    /// rows ran out but visible space was left.
    pub extra_dots: Vec<DisplayEvent>,
    /// The day's timed events in the order the dots draw from: ascending
    /// start time, events without one first.
    pub timed: Vec<DisplayEvent>,
    /// How many events found no place in the cell.
    pub overflow_count: usize,
}

/// Slot row `s` is occupied by a spanning bar.
pub open spec fn spec_row_occupied(occ: Seq<bool>, s: int) -> bool {
    0 <= s < occ.len() && occ[s]
}

/// How many of the slot rows before `s` are free of spanning bars: the
/// index into the timed list that row `s`'s dot would take.
pub open spec fn spec_free_before(occ: Seq<bool>, s: int) -> int
    decreases s,
{
    if s <= 0 {
        0
    } else if spec_row_occupied(occ, s - 1) {
        spec_free_before(occ, s - 1)
    } else {
        spec_free_before(occ, s - 1) + 1
    }
}

/// What one planned slot row must hold: a placeholder over an occupied
/// row, the next unused timed event's dot over a free one, a placeholder
/// again once the timed events have run out.
pub open spec fn spec_cell_plan(occ: Seq<bool>, timed: Seq<DisplayEvent>, cell: CompactCell, s: int)
    -> bool {
    if spec_row_occupied(occ, s) {
        cell is Placeholder
    } else {
        let d = spec_free_before(occ, s);
        if d < timed.len() {
            cell == CompactCell::Dot(timed[d])
        } else {
            cell is Placeholder
        }
    }
}

/// Sort events by start time alone, events without one first, keeping the
/// given order among equal starts.
fn sort_by_start(events: &Vec<DisplayEvent>) -> (r: Vec<DisplayEvent>)
    ensures
        r@.len() == events@.len(),
        r@.to_multiset() == events@.to_multiset(),
        forall|i: int, j: int|
            0 <= i < j < r@.len() ==> spec_opt_time_le(r@[i].start_time, r@[j].start_time),
{
    let mut r: Vec<DisplayEvent> = Vec::new();
    let mut k: usize = 0;
    proof {
        assert(events@.subrange(0, 0) =~= Seq::<DisplayEvent>::empty());
        assert(r@.to_multiset() =~= events@.subrange(0, 0).to_multiset());
    }
    while k < events.len()
        invariant
            k <= events@.len(),
            r@.len() == k,
            r@.to_multiset() == events@.subrange(0, k as int).to_multiset(),
            forall|i: int, j: int|
                0 <= i < j < r@.len() ==> spec_opt_time_le(r@[i].start_time, r@[j].start_time),
        decreases events@.len() - k,
    {
        let e = events[k].clone();
        let ghost r_before = r@;
        let mut pos: usize = 0;
        while pos < r.len() && opt_time_le(&r[pos].start_time, &e.start_time)
            invariant
                pos <= r@.len(),
                forall|i: int|
                    0 <= i < pos ==> spec_opt_time_le(r@[i].start_time, e.start_time),
            decreases r@.len() - pos,
        {
            pos = pos + 1;
        }
        proof {
            if pos < r@.len() {
                assert forall|j: int| pos <= j < r@.len() implies spec_opt_time_le(
                    e.start_time,
                    r@[j].start_time,
                ) by {
                    assert(spec_opt_time_le(r@[pos as int].start_time, r@[j].start_time));
                    assert(!spec_opt_time_le(r@[pos as int].start_time, e.start_time));
                }
            }
        }
        r.insert(pos, e);
        proof {
            vstd::seq_lib::to_multiset_insert(r_before, pos as int, e);
            vstd::seq_lib::to_multiset_build(events@.subrange(0, k as int), events@[k as int]);
            assert(events@.subrange(0, k as int).push(events@[k as int]) =~= events@.subrange(
                0,
                k as int + 1,
            ));
        }
        k = k + 1;
    }
    proof {
        assert(events@.subrange(0, events@.len() as int) =~= events@);
        vstd::seq_lib::to_multiset_len::<DisplayEvent>(events@);
        vstd::seq_lib::to_multiset_len::<DisplayEvent>(r@);
    }
    r
}

/// Plan a day cell's compact indicators.
///
/// `day_occupied` flags the slot rows that spanning bars cover on this
/// day, `week_max_slot` is the week's highest slot index if any bar
/// exists, and `max_visible` caps what the cell shows.  One row is drawn
/// per slot up to that cap: a placeholder under each bar, the next timed
/// event's dot in each gap.  Timed events left over continue as a dot row
/// in the remaining visible space.  Each drawn row counts toward the
/// visible total — placeholders too, since the bar above them shows an
/// event — and everything beyond the total is overflow.
pub fn plan_compact_events(
    events: &Vec<DisplayEvent>,
    max_visible: usize,
    day_occupied: &Vec<bool>,
    week_max_slot: Option<usize>,
) -> (r: CompactPlan)
    requires
        week_max_slot is Some ==> week_max_slot.unwrap() < usize::MAX,
    ensures
        r.timed@.to_multiset() == spec_timed_of(events@).to_multiset(),
        forall|i: int, j: int|
            0 <= i < j < r.timed@.len() ==> spec_opt_time_le(
                r.timed@[i].start_time,
                r.timed@[j].start_time,
            ),
        r.cells@.len() == vstd::math::min(
            match week_max_slot {
                Some(m) => m + 1,
                None => 0,
            },
            max_visible as int,
        ),
        forall|s: int|
            0 <= s < r.cells@.len() ==> spec_cell_plan(
                day_occupied@,
                r.timed@,
                #[trigger] r.cells@[s],
                s,
            ),
        r.extra_dots@ == r.timed@.subrange(
            vstd::math::min(spec_free_before(day_occupied@, r.cells@.len() as int), r.timed@.len() as int),
            vstd::math::min(
                vstd::math::min(spec_free_before(day_occupied@, r.cells@.len() as int), r.timed@.len() as int)
                    + vstd::math::max(max_visible - r.cells@.len(), 0),
                r.timed@.len() as int,
            ),
        ),
        r.overflow_count == vstd::math::max(
            spec_all_day_of(events@).len() + spec_timed_of(events@).len() - (r.cells@.len()
                + r.extra_dots@.len()),
            0,
        ),
{
    let timed_unsorted = crate::layout::filter_timed(events);
    let timed = sort_by_start(&timed_unsorted);
    proof {
        vstd::seq_lib::to_multiset_len::<DisplayEvent>(timed@);
        vstd::seq_lib::to_multiset_len::<DisplayEvent>(spec_timed_of(events@));
        crate::layout::lemma_partition_lengths(events@);
    }
    let all_day_count = events.len() - timed.len();

    let total_slots: usize = match week_max_slot {
        Some(m) => m + 1,
        None => 0,
    };
    let cells_len: usize = if total_slots < max_visible {
        total_slots
    } else {
        max_visible
    };

    // One row per slot up to the visible cap: placeholders under bars,
    // dots in the gaps.
    let mut cells: Vec<CompactCell> = Vec::new();
    let mut next_dot: usize = 0;
    let mut s: usize = 0;
    while s < cells_len
        invariant
            s <= cells_len,
            cells_len <= max_visible,
            cells@.len() == s,
            next_dot == vstd::math::min(
                spec_free_before(day_occupied@, s as int),
                timed@.len() as int,
            ),
            forall|s2: int|
                0 <= s2 < s ==> spec_cell_plan(day_occupied@, timed@, #[trigger] cells@[s2], s2),
        decreases cells_len - s,
    {
        let occupied = s < day_occupied.len() && day_occupied[s];
        if occupied {
            cells.push(CompactCell::Placeholder);
        } else if next_dot < timed.len() {
            cells.push(CompactCell::Dot(timed[next_dot].clone()));
            next_dot = next_dot + 1;
        } else {
            cells.push(CompactCell::Placeholder);
        }
        s = s + 1;
    }

    // Timed events left over continue as a dot row in the space that
    // remains visible.
    let mut extra_dots: Vec<DisplayEvent> = Vec::new();
    let remaining_visible = max_visible - cells_len;
    let ghost t0 = next_dot as int;
    let mut taken: usize = 0;
    while taken < remaining_visible && next_dot < timed.len()
        invariant
            t0 == vstd::math::min(
                spec_free_before(day_occupied@, cells@.len() as int),
                timed@.len() as int,
            ),
            taken <= remaining_visible,
            0 <= t0 <= timed@.len(),
            next_dot == t0 + taken,
            next_dot <= timed@.len(),
            extra_dots@ == timed@.subrange(t0, next_dot as int),
        decreases timed@.len() - next_dot,
    {
        proof {
            assert(timed@.subrange(t0, next_dot + 1).drop_last() =~= timed@.subrange(
                t0,
                next_dot as int,
            ));
        }
        extra_dots.push(timed[next_dot].clone());
        next_dot = next_dot + 1;
        taken = taken + 1;
    }

    // Each drawn row counts as shown; what the cap cut off is overflow.
    let shown = cells.len() + extra_dots.len();
    let total_events = all_day_count + timed.len();
    let overflow_count: usize = if total_events > shown {
        total_events - shown
    } else {
        0
    };

    proof {
        assert(extra_dots@ =~= timed@.subrange(
            t0,
            vstd::math::min(t0 + vstd::math::max(max_visible - cells@.len(), 0), timed@.len() as int),
        ));
    }

    CompactPlan { cells, extra_dots, timed, overflow_count }
}

} // verus!
