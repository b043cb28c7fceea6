//! The averaging window of the polling engine.
//!
//! Each poll offers the current reading to the window. A reading whose
//! timestamp is already present is dropped (polling faster than the service
//! updates must not inflate the window); otherwise it is appended. When the
//! window reaches its target size, the averaged reading is computed, the
//! window is emptied atomically, and the consumed readings are handed back
//! for delivery to the sink together with the averaged reading.

use vstd::prelude::*;
use crate::models::client::{LibreCgmData, TrendType};
use crate::utils::{spec_trend_at, spec_trend_index, trend_index};

verus! {

/// Whether some reading in the window carries exactly this timestamp.
pub open spec fn contains_date(w: Seq<LibreCgmData>, date: i64) -> bool {
    exists|i: int| 0 <= i < w.len() && w[i].date == date
}

/// The window after one reading is offered: unchanged when its timestamp is
/// already present, else with the reading appended.
pub open spec fn spec_offer(w: Seq<LibreCgmData>, current: LibreCgmData) -> Seq<LibreCgmData> {
    if contains_date(w, current.date) {
        w
    } else {
        w.push(current)
    }
}

/// The sum of the values in a window.
pub open spec fn sum_values(w: Seq<LibreCgmData>) -> int
    decreases w.len(),
{
    if w.len() == 0 {
        0
    } else {
        sum_values(w.drop_last()) + w.last().value
    }
}

/// The sum of the trend-table indices in a window.
pub open spec fn sum_trend_indices(w: Seq<LibreCgmData>) -> int
    decreases w.len(),
{
    if w.len() == 0 {
        0
    } else {
        sum_trend_indices(w.drop_last()) + spec_trend_index(w.last().trend)
    }
}

/// The mean of a non-negative sum over `n` items, rounded to the nearest
/// integer (halves round up).
pub open spec fn spec_round_mean(sum: int, n: int) -> int
    recommends
        n >= 1,
        sum >= 0,
{
    (2 * sum + n) / (2 * n)
}

/// The averaged value of a window: the rounded mean of its values.
pub open spec fn spec_average_value(w: Seq<LibreCgmData>) -> int {
    spec_round_mean(sum_values(w), w.len() as int)
}

/// The averaged trend of a window: its trends are mapped to their table
/// indices, the indices are averaged and rounded, and the result is mapped
/// back through the table. An empty window defaults to table position 3
/// (`Flat`).
pub open spec fn spec_average_trend(w: Seq<LibreCgmData>) -> TrendType {
    if w.len() == 0 {
        spec_trend_at(3)
    } else {
        spec_trend_at(spec_round_mean(sum_trend_indices(w), w.len() as int))
    }
}

/// The averaged reading delivered when a window fills: the averaged value and
/// trend of the window; the high/low flags and the timestamp are copied from
/// the tick's current reading, not computed from the window.
pub open spec fn spec_averaged_reading(w: Seq<LibreCgmData>, current: LibreCgmData) -> LibreCgmData {
    LibreCgmData {
        value: spec_average_value(w) as u32,
        is_high: current.is_high,
        is_low: current.is_low,
        trend: spec_average_trend(w),
        date: current.date,
    }
}

/// The trend-table entry at an index.
fn trend_at(i: usize) -> (t: TrendType)
    requires
        i <= 6,
    ensures
        t == spec_trend_at(i as int),
{
    match i {
        0 => TrendType::NotComputable,
        1 => TrendType::SingleDown,
        2 => TrendType::FortyFiveDown,
        3 => TrendType::Flat,
        4 => TrendType::FortyFiveUp,
        5 => TrendType::SingleUp,
        _ => TrendType::NotComputable,
    }
}

/// Whether some reading in the window carries exactly this timestamp.
fn contains_date_exec(w: &Vec<LibreCgmData>, date: i64) -> (b: bool)
    ensures
        b == contains_date(w@, date),
{
    let n = w.len();
    for i in 0..n
        invariant
            n == w@.len(),
            forall|j: int| 0 <= j < i ==> w@[j].date != date,
    {
        if w[i].date == date {
            return true;
        }
    }
    false
}

/// Computes the averaged reading of a non-empty window.
fn average_of(w: &Vec<LibreCgmData>, current: &LibreCgmData) -> (r: LibreCgmData)
    requires
        w@.len() >= 1,
    ensures
        r == spec_averaged_reading(w@, *current),
{
    let n = w.len();
    let mut sum: u128 = 0;
    let mut tsum: u128 = 0;
    assert(w@.take(0) =~= Seq::<LibreCgmData>::empty());
    for i in 0..n
        invariant
            n == w@.len(),
            sum == sum_values(w@.take(i as int)),
            tsum == sum_trend_indices(w@.take(i as int)),
            sum <= i * 0xFFFF_FFFF,
            tsum <= i * 5,
    {
        assert(w@.take(i + 1).drop_last() =~= w@.take(i as int));
        assert(w@.take(i + 1).last() == w@[i as int]);
        sum = sum + w[i].value as u128;
        tsum = tsum + trend_index(w[i].trend) as u128;
    }
    assert(w@.take(n as int) =~= w@);
    let n128 = n as u128;
    let avg_value: u128 = (2 * sum + n128) / (2 * n128);
    let avg_trend_index: u128 = (2 * tsum + n128) / (2 * n128);
    proof {
        lemma_round_mean_bound(sum as int, n as int, 0xFFFF_FFFF);
        lemma_round_mean_bound(tsum as int, n as int, 5);
    }
    LibreCgmData {
        value: avg_value as u32,
        is_high: current.is_high,
        is_low: current.is_low,
        trend: trend_at(avg_trend_index as usize),
        date: current.date,
    }
}

/// The rounded mean of item values bounded by `m` is itself bounded by `m`.
proof fn lemma_round_mean_bound(sum: int, n: int, m: int)
    requires
        n >= 1,
        m >= 0,
        0 <= sum <= n * m,
    ensures
        0 <= spec_round_mean(sum, n) <= m,
{
    assert(2 * sum + n <= (2 * n) * m + n) by (nonlinear_arith)
        requires
            sum <= n * m,
    ;
    assert(((2 * n) * m + n) / (2 * n) == m) by (nonlinear_arith)
        requires
            n >= 1,
            m >= 0,
    ;
    assert((2 * sum + n) / (2 * n) <= ((2 * n) * m + n) / (2 * n)) by {
        vstd::arithmetic::div_mod::lemma_div_is_ordered(2 * sum + n, (2 * n) * m + n, 2 * n);
    };
    assert((2 * sum + n) / (2 * n) >= 0) by (nonlinear_arith)
        requires
            sum >= 0,
            n >= 1,
    ;
}

/// The in-progress batch of readings the polling engine averages over:
/// append-only, deduplicated by exact timestamp, and emptied every time it
/// reaches the target size. Owned by one engine invocation and never shared.
pub struct AveragingWindow {
    /// The readings accumulated so far, in arrival order
    pub readings: Vec<LibreCgmData>,
    /// How many readings make a full window
    pub target: usize,
    /// Every timestamp ever offered to this window
    pub seen: Ghost<Set<i64>>,
}

impl AveragingWindow {
    /// Well-formedness: the window is below its target (it is emptied the
    /// moment it fills), its timestamps are pairwise distinct, and each of
    /// them was offered at some point.
    pub open spec fn wf(self) -> bool {
        &&& self.target >= 1
        &&& self.readings@.len() < self.target
        &&& (forall|i: int, j: int|
            0 <= i < j < self.readings@.len() ==> self.readings@[i].date != self.readings@[j].date)
        &&& (forall|i: int|
            0 <= i < self.readings@.len() ==> self.seen@.contains(#[trigger] self.readings@[i].date))
        &&& self.seen@.finite()
    }

    /// An empty window with the given target size.
    pub fn new(target: usize) -> (w: AveragingWindow)
        requires
            target >= 1,
        ensures
            w.wf(),
            w.target == target,
            w.readings@ =~= Seq::<LibreCgmData>::empty(),
            w.seen@ =~= Set::<i64>::empty(),
    {
        AveragingWindow { readings: Vec::new(), target, seen: Ghost(Set::empty()) }
    }

    /// One poll tick: offers the current reading to the window. A reading
    /// whose timestamp is already present changes nothing; otherwise it is
    /// appended. When the window thereby reaches the target size, the
    /// averaged reading and the consumed window contents come back and the
    /// window is emptied atomically; otherwise nothing comes back.
    pub fn tick(&mut self, current: &LibreCgmData) -> (out: Option<
        (LibreCgmData, Vec<LibreCgmData>),
    >)
        requires
            old(self).wf(),
        ensures
            final(self).wf(),
            final(self).target == old(self).target,
            final(self).seen@ =~= old(self).seen@.insert(current.date),
            out is Some <==> spec_offer(old(self).readings@, *current).len() >= old(self).target,
            out matches Some(pair) ==> {
                &&& pair.0 == spec_averaged_reading(
                    spec_offer(old(self).readings@, *current),
                    *current,
                )
                &&& pair.1@ == spec_offer(old(self).readings@, *current)
                &&& final(self).readings@.len() == 0
            },
            out is None ==> final(self).readings@ == spec_offer(old(self).readings@, *current),
    {
        proof {
            self.seen@ = self.seen@.insert(current.date);
        }
        if !contains_date_exec(&self.readings, current.date) {
            self.readings.push(*current);
        }
        if self.readings.len() >= self.target {
            let averaged = average_of(&self.readings, current);
            let mut consumed: Vec<LibreCgmData> = Vec::new();
            core::mem::swap(&mut consumed, &mut self.readings);
            Some((averaged, consumed))
        } else {
            None
        }
    }
}

/// Law: the window never holds more readings than there are distinct
/// timestamps among all the readings ever offered to it. In particular, ticks
/// that keep returning the same timestamp never grow the window past one.
pub proof fn lemma_window_bounded_by_distinct_timestamps(w: AveragingWindow)
    requires
        w.wf(),
    ensures
        w.readings@.len() <= w.seen@.len(),
{
    lemma_distinct_dates_le_seen(w.readings@, w.seen@);
}

/// A sequence of readings with pairwise distinct timestamps, all drawn from a
/// finite set, is no longer than that set.
proof fn lemma_distinct_dates_le_seen(rs: Seq<LibreCgmData>, seen: Set<i64>)
    requires
        seen.finite(),
        forall|i: int, j: int| 0 <= i < j < rs.len() ==> rs[i].date != rs[j].date,
        forall|i: int| 0 <= i < rs.len() ==> seen.contains(#[trigger] rs[i].date),
    ensures
        rs.len() <= seen.len(),
    decreases rs.len(),
{
    if rs.len() > 0 {
        let rest = rs.drop_last();
        let d = rs.last().date;
        let shrunk = seen.remove(d);
        assert forall|i: int| 0 <= i < rest.len() implies shrunk.contains(
            #[trigger] rest[i].date,
        ) by {
            assert(rs[i].date == rest[i].date);
            assert(rs[i].date != d);
        }
        lemma_distinct_dates_le_seen(rest, shrunk);
        assert(seen.contains(d));
        assert(shrunk.len() == seen.len() - 1);
    }
}

} // verus!
