//! Axis bounds of a sequence of sample points.
//!
//! The horizontal bounds are the ends of the domain. The vertical bounds
//! are the least and the greatest value among the points, compared as the
//! numbers they encode, and both are positive zero when there is no point.

use vstd::prelude::*;
use crate::binary64::{less, order_key, ZERO};
use crate::interval::DomainInterval;
use crate::sampler::SamplePoint;

verus! {

/// The extent of a plot along both axes. The vertical bounds are bit
/// patterns, like the values of the points.
#[derive(Clone, Copy, Debug, PartialEq, Eq, Structural)]
pub struct AxisBounds {
    pub x_min: i64,
    pub x_max: i64,
    pub y_min: u64,
    pub y_max: u64,
}

/// The values of `points`, in their order.
pub open spec fn ordinates(points: Seq<SamplePoint>) -> Seq<u64> {
    Seq::new(points.len(), |i: int| points[i].1)
}

/// Among the first `n` values of `ys`, the one at `i` is the least, and
/// the first one if the least number occurs more than once.
pub open spec fn first_minimum_among(ys: Seq<u64>, n: int, i: int) -> bool {
    &&& 0 <= i < n <= ys.len()
    &&& forall|j: int| 0 <= j < n ==> order_key(ys[i]) <= order_key(#[trigger] ys[j])
    &&& forall|j: int| 0 <= j < i ==> order_key(ys[i]) < order_key(#[trigger] ys[j])
}

/// Among the first `n` values of `ys`, the one at `i` is the greatest, and
/// the last one if the greatest number occurs more than once.
pub open spec fn last_maximum_among(ys: Seq<u64>, n: int, i: int) -> bool {
    &&& 0 <= i < n <= ys.len()
    &&& forall|j: int| 0 <= j < n ==> order_key(#[trigger] ys[j]) <= order_key(ys[i])
    &&& forall|j: int| i < j < n ==> order_key(#[trigger] ys[j]) < order_key(ys[i])
}

/// The least value of `ys`; positive zero if `ys` is empty.
pub open spec fn minimum(ys: Seq<u64>) -> u64 {
    if ys.len() == 0 {
        ZERO
    } else {
        ys[choose|i: int| first_minimum_among(ys, ys.len() as int, i)]
    }
}

/// The greatest value of `ys`; positive zero if `ys` is empty.
pub open spec fn maximum(ys: Seq<u64>) -> u64 {
    if ys.len() == 0 {
        ZERO
    } else {
        ys[choose|i: int| last_maximum_among(ys, ys.len() as int, i)]
    }
}

/// The bounds of `points` sampled over `interval`.
pub open spec fn bounds_of(points: Seq<SamplePoint>, interval: DomainInterval) -> AxisBounds {
    AxisBounds {
        x_min: interval.start,
        x_max: interval.end,
        y_min: minimum(ordinates(points)),
        y_max: maximum(ordinates(points)),
    }
}

/// The horizontal bounds are the ends of the domain, whatever the points.
pub proof fn lemma_bounds_span_domain(points: Seq<SamplePoint>, interval: DomainInterval)
    ensures
        bounds_of(points, interval).x_min == interval.start,
        bounds_of(points, interval).x_max == interval.end,
{
}

/// Any non-empty beginning of a sequence has a first minimum.
pub proof fn lemma_first_minimum_exists(ys: Seq<u64>, n: int)
    requires
        1 <= n <= ys.len(),
    ensures
        exists|i: int| first_minimum_among(ys, n, i),
    decreases n,
{
    if n == 1 {
        assert(first_minimum_among(ys, n, 0));
    } else {
        let m = n - 1;
        lemma_first_minimum_exists(ys, m);
        let i = choose|i: int| first_minimum_among(ys, m, i);
        if order_key(ys[n - 1]) < order_key(ys[i]) {
            assert(first_minimum_among(ys, n, n - 1));
        } else {
            assert(first_minimum_among(ys, n, i));
        }
    }
}

/// Any non-empty beginning of a sequence has a last maximum.
pub proof fn lemma_last_maximum_exists(ys: Seq<u64>, n: int)
    requires
        1 <= n <= ys.len(),
    ensures
        exists|i: int| last_maximum_among(ys, n, i),
    decreases n,
{
    if n == 1 {
        assert(last_maximum_among(ys, n, 0));
    } else {
        let m = n - 1;
        lemma_last_maximum_exists(ys, m);
        let i = choose|i: int| last_maximum_among(ys, m, i);
        if order_key(ys[n - 1]) >= order_key(ys[i]) {
            assert(last_maximum_among(ys, n, n - 1));
        } else {
            assert(last_maximum_among(ys, n, i));
        }
    }
}

/// The vertical bounds enclose every value: no value encodes a number
/// below that of `minimum(ys)` or above that of `maximum(ys)`, and both
/// bounds are values of `ys`. Of no values, both bounds are positive zero.
pub proof fn lemma_bounds_enclose(ys: Seq<u64>)
    ensures
        ys.len() == 0 ==> minimum(ys) == ZERO && maximum(ys) == ZERO,
        ys.len() > 0 ==> ys.contains(minimum(ys)) && ys.contains(maximum(ys)),
        forall|i: int|
            0 <= i < ys.len() ==> order_key(minimum(ys)) <= order_key(#[trigger] ys[i])
                <= order_key(maximum(ys)),
{
    if ys.len() > 0 {
        lemma_first_minimum_exists(ys, ys.len() as int);
        lemma_last_maximum_exists(ys, ys.len() as int);
        let lo = choose|i: int| first_minimum_among(ys, ys.len() as int, i);
        let hi = choose|i: int| last_maximum_among(ys, ys.len() as int, i);
        assert(ys[lo] == minimum(ys));
        assert(ys[hi] == maximum(ys));
    }
}

/// Computes the bounds of `points` sampled over `interval`.
pub fn axis_bounds(points: &Vec<SamplePoint>, interval: DomainInterval) -> (b: AxisBounds)
    ensures
        b == bounds_of(points@, interval),
{
    let ghost ys = ordinates(points@);
    let n: usize = points.len();
    if n == 0 {
        return AxisBounds { x_min: interval.start, x_max: interval.end, y_min: ZERO, y_max: ZERO };
    }
    let mut lo: usize = 0;
    let mut hi: usize = 0;
    let mut k: usize = 1;
    assert(first_minimum_among(ys, 1, 0));
    assert(last_maximum_among(ys, 1, 0));
    while k < n
        invariant
            n == points@.len(),
            ys == ordinates(points@),
            1 <= k <= n,
            first_minimum_among(ys, k as int, lo as int),
            last_maximum_among(ys, k as int, hi as int),
        decreases n - k,
    {
        let y: u64 = points[k].1;
        assert(ys[k as int] == y);
        assert(ys[lo as int] == points@[lo as int].1);
        assert(ys[hi as int] == points@[hi as int].1);
        if less(y, points[lo].1) {
            lo = k;
        }
        if !less(y, points[hi].1) {
            hi = k;
        }
        k = k + 1;
    }
    proof {
        let lo_spec = choose|i: int| first_minimum_among(ys, ys.len() as int, i);
        let hi_spec = choose|i: int| last_maximum_among(ys, ys.len() as int, i);
        assert(first_minimum_among(ys, ys.len() as int, lo as int));
        assert(last_maximum_among(ys, ys.len() as int, hi as int));
        assert(first_minimum_among(ys, ys.len() as int, lo_spec));
        assert(last_maximum_among(ys, ys.len() as int, hi_spec));
        assert(order_key(ys[lo_spec]) == order_key(ys[lo as int]));
        assert(order_key(ys[hi_spec]) == order_key(ys[hi as int]));
        assert(lo_spec == lo);
        assert(hi_spec == hi);
        assert(ys[lo as int] == points@[lo as int].1);
        assert(ys[hi as int] == points@[hi as int].1);
    }
    AxisBounds {
        x_min: interval.start,
        x_max: interval.end,
        y_min: points[lo].1,
        y_max: points[hi].1,
    }
}

} // verus!
