//! The interval between beats from which a tempo is estimated.
//!
//! The caller subtracts consecutive beat timestamps. Of the intervals so
//! found the median is taken, the middle one once they are in order, and a
//! median under a millisecond is no tempo at all.

use crate::encoding::{wide_less, wide_lt, wide_rank, wide_rank_le, WIDE_THOUSANDTH};
use vstd::prelude::*;
use vstd::seq_lib::{to_multiset_build, to_multiset_insert};

verus! {

/// Whether the intervals stand in ascending order.
pub open spec fn ascending(intervals: Seq<u64>) -> bool {
    forall|i: int, j: int|
        0 <= i < j < intervals.len() ==> wide_rank(intervals[i]) <= wide_rank(intervals[j])
}

/// Whether `sorted` holds the intervals of `intervals`, each as often as it
/// occurs there, in ascending order.
pub open spec fn is_sorting_of(sorted: Seq<u64>, intervals: Seq<u64>) -> bool {
    sorted.to_multiset() == intervals.to_multiset() && ascending(sorted)
}

/// Whether `median` is the middle one of the intervals once they are in
/// order: the one at place `len / 2`.
pub open spec fn is_median(intervals: Seq<u64>, median: u64) -> bool {
    exists|sorted: Seq<u64>|
        #![trigger is_sorting_of(sorted, intervals)]
        is_sorting_of(sorted, intervals) && sorted.len() == intervals.len() && intervals.len() > 0
            && median == sorted[intervals.len() as int / 2]
}

/// The intervals in ascending order.
pub fn sort_intervals(intervals: &Vec<u64>) -> (sorted: Vec<u64>)
    ensures
        is_sorting_of(sorted@, intervals@),
        sorted@.len() == intervals@.len(),
{
    let mut sorted: Vec<u64> = Vec::new();
    let mut i: usize = 0;
    assert(intervals@.subrange(0, 0) =~= Seq::<u64>::empty());
    while i < intervals.len()
        invariant
            i <= intervals@.len(),
            sorted@.len() == i,
            is_sorting_of(sorted@, intervals@.subrange(0, i as int)),
        decreases intervals@.len() - i,
    {
        let interval = intervals[i];
        let mut place: usize = 0;
        while place < sorted.len() && wide_rank_le(sorted[place], interval)
            invariant
                place <= sorted@.len(),
                forall|k: int| 0 <= k < place ==> wide_rank(sorted@[k]) <= wide_rank(interval),
            decreases sorted@.len() - place,
        {
            place += 1;
        }
        let ghost before = sorted@;
        sorted.insert(place, interval);
        proof {
            let seen = intervals@.subrange(0, i as int);
            let next = intervals@.subrange(0, i + 1);
            assert(next =~= seen.push(interval));
            to_multiset_build(seen, interval);
            to_multiset_insert(before, place as int, interval);
            assert forall|a: int, b: int| 0 <= a < b < sorted@.len() implies wide_rank(
                sorted@[a],
            ) <= wide_rank(sorted@[b]) by {
                if b < place {
                    assert(sorted@[a] == before[a] && sorted@[b] == before[b]);
                } else if b == place {
                    assert(sorted@[a] == before[a]);
                } else if a < place {
                    assert(sorted@[a] == before[a] && sorted@[b] == before[b - 1]);
                    assert(wide_rank(before[place as int]) > wide_rank(interval));
                } else if a == place {
                    assert(sorted@[b] == before[b - 1]);
                    assert(wide_rank(before[place as int]) > wide_rank(interval));
                } else {
                    assert(sorted@[a] == before[a - 1] && sorted@[b] == before[b - 1]);
                }
            }
        }
        i += 1;
    }
    assert(intervals@.subrange(0, i as int) =~= intervals@);
    sorted
}

/// The median of the intervals, if there is any interval.
pub fn median_interval(intervals: &Vec<u64>) -> (median: Option<u64>)
    ensures
        median.is_none() <==> intervals@.len() == 0,
        median matches Some(m) ==> is_median(intervals@, m),
{
    if intervals.len() == 0 {
        return None;
    }
    let sorted = sort_intervals(intervals);
    let median = sorted[sorted.len() / 2];
    assert(is_sorting_of(sorted@, intervals@));
    Some(median)
}

/// The interval that a tempo may be estimated from: the median of the
/// intervals, unless there is none or it is less than a thousandth of a
/// second.
pub fn tempo_interval(intervals: &Vec<u64>) -> (interval: Option<u64>)
    ensures
        interval matches Some(m) ==> is_median(intervals@, m) && !wide_lt(m, WIDE_THOUSANDTH),
        interval.is_none() ==> intervals@.len() == 0 || exists|m: u64|
            is_median(intervals@, m) && wide_lt(m, WIDE_THOUSANDTH),
{
    match median_interval(intervals) {
        Some(median) => {
            if wide_less(median, WIDE_THOUSANDTH) {
                None
            } else {
                Some(median)
            }
        },
        None => None,
    }
}

} // verus!
