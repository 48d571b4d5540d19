//! Piecewise-linear curves through tabulated breakpoints, and the lookup of
//! a value on them.

use vstd::prelude::*;
use crate::fixed::{lemma_mul_div_fraction, mul_div, mul_div_int};

verus! {

/// Largest abscissa and ordinate that a curve may hold.
pub const CURVE_LIMIT: i64 = 1_000_000_000;

/// A curve is usable when it has at least one breakpoint, its abscissas
/// strictly increase, and every entry lies between zero and `CURVE_LIMIT`.
pub open spec fn well_formed(points: Seq<(i64, i64)>) -> bool {
    &&& points.len() >= 1
    &&& forall|i: int|
        0 <= i < points.len() ==> 0 <= (#[trigger] points[i]).0 <= CURVE_LIMIT && 0 <= points[i].1
            <= CURVE_LIMIT
    &&& forall|i: int| 0 <= i < points.len() - 1 ==> (#[trigger] points[i]).0 < points[i + 1].0
}

/// The point at `x` on the straight line from breakpoint `p` to breakpoint `q`.
pub open spec fn lerp(p: (i64, i64), q: (i64, i64), x: int) -> int {
    p.1 + mul_div_int(q.1 - p.1, x - p.0, q.0 - p.0)
}

/// Walks the curve from breakpoint `i` to the segment that holds `x`, and
/// interpolates there; past the last breakpoint it holds the last value.
pub open spec fn value_from(points: Seq<(i64, i64)>, i: int, x: int) -> int
    decreases points.len() - i,
{
    if i + 1 >= points.len() {
        points[points.len() - 1].1 as int
    } else if x < points[i + 1].0 {
        lerp(points[i], points[i + 1], x)
    } else {
        value_from(points, i + 1, x)
    }
}

/// The value of a curve at `x`: the first value at or below the first
/// breakpoint, the last value at or above the last one, and the linear
/// interpolation between the two neighbours in between.
pub open spec fn value_at(points: Seq<(i64, i64)>, x: int) -> int {
    if x <= points[0].0 {
        points[0].1 as int
    } else {
        value_from(points, 0, x)
    }
}

/// From any breakpoint at or below `x`, the walk arrives at the segment
/// that holds `x`.
pub proof fn lemma_walk_reaches_segment(points: Seq<(i64, i64)>, i: int, j: int, x: int)
    requires
        well_formed(points),
        0 <= i <= j < points.len() - 1,
        points[j].0 <= x < points[j + 1].0,
    ensures
        value_from(points, i, x) == lerp(points[j], points[j + 1], x),
    decreases j - i,
{
    if i < j {
        lemma_increasing(points, i + 1, j);
        lemma_walk_reaches_segment(points, i + 1, j, x);
    }
}

/// Abscissas increase along the whole curve, not only between neighbours.
pub proof fn lemma_increasing(points: Seq<(i64, i64)>, i: int, j: int)
    requires
        well_formed(points),
        0 <= i <= j < points.len(),
    ensures
        points[i].0 <= points[j].0,
        i < j ==> points[i].0 < points[j].0,
    decreases j - i,
{
    if i < j {
        lemma_increasing(points, i, j - 1);
    }
}

/// From any breakpoint, an abscissa at or above the last breakpoint is
/// given the last value.
pub proof fn lemma_walk_past_end(points: Seq<(i64, i64)>, i: int, x: int)
    requires
        well_formed(points),
        0 <= i < points.len(),
        x >= points[points.len() - 1].0,
    ensures
        value_from(points, i, x) == points[points.len() - 1].1,
    decreases points.len() - i,
{
    if i + 1 < points.len() {
        lemma_increasing(points, i + 1, points.len() - 1);
        lemma_walk_past_end(points, i + 1, x);
    }
}

/// Lookups clamp: outside the curve's range the value is that of the
/// nearest boundary breakpoint, never an extrapolation.
pub proof fn lemma_boundary_clamping(points: Seq<(i64, i64)>, x: int)
    requires
        well_formed(points),
    ensures
        x <= points[0].0 ==> value_at(points, x) == points[0].1,
        x >= points[points.len() - 1].0 ==> value_at(points, x) == points[points.len()
            - 1].1,
{
    if x >= points[points.len() - 1].0 {
        lemma_increasing(points, 0, points.len() - 1);
        lemma_walk_past_end(points, 0, x);
    }
}

/// Between two neighbouring breakpoints the value is their linear
/// interpolation, and it lies between their two values.
pub proof fn lemma_interpolates_between_neighbours(points: Seq<(i64, i64)>, j: int, x: int)
    requires
        well_formed(points),
        0 <= j < points.len() - 1,
        points[j].0 <= x < points[j + 1].0,
    ensures
        value_at(points, x) == lerp(points[j], points[j + 1], x),
        points[j].1 <= points[j + 1].1 ==> points[j].1 <= value_at(points, x)
            <= points[j + 1].1,
        points[j].1 >= points[j + 1].1 ==> points[j].1 >= value_at(points, x)
            >= points[j + 1].1,
{
    lemma_increasing(points, 0, j);
    lemma_walk_reaches_segment(points, 0, j, x);
    let p = points[j];
    let q = points[j + 1];
    lemma_mul_div_fraction(q.1 - p.1, x - p.0, q.0 - p.0);
    if x <= points[0].0 {
        assert(j == 0 && x == p.0);
    }
}

/// From any breakpoint at or below `x`, the walk ends on a value within the
/// curve's limits.
pub proof fn lemma_value_in_range(points: Seq<(i64, i64)>, i: int, x: int)
    requires
        well_formed(points),
        0 <= i < points.len(),
        points[i].0 <= x,
    ensures
        0 <= value_from(points, i, x) <= CURVE_LIMIT,
    decreases points.len() - i,
{
    if i + 1 >= points.len() {
    } else if x < points[i + 1].0 {
        let p = points[i];
        let q = points[i + 1];
        lemma_mul_div_fraction(q.1 - p.1, x - p.0, q.0 - p.0);
    } else {
        lemma_value_in_range(points, i + 1, x);
    }
}

/// Every value of a well-formed curve lies within the curve's limits.
pub proof fn lemma_value_at_in_range(points: Seq<(i64, i64)>, x: int)
    requires
        well_formed(points),
    ensures
        0 <= value_at(points, x) <= CURVE_LIMIT,
{
    if x > points[0].0 {
        lemma_value_in_range(points, 0, x);
    }
}

/// Looks up the value of a curve at `x`.
pub fn interpolate<const N: usize>(table: &[(i64, i64); N], x: i64) -> (y: i64)
    requires
        well_formed(table@),
    ensures
        y == value_at(table@, x as int),
        0 <= y <= CURVE_LIMIT,
{
    if x <= table[0].0 {
        return table[0].1;
    }
    let mut i: usize = 0;
    while i + 1 < N && table[i + 1].0 <= x
        invariant
            well_formed(table@),
            table@.len() == N,
            0 <= i < N,
            table@[i as int].0 <= x,
            value_from(table@, 0, x as int) == value_from(
                table@,
                i as int,
                x as int,
            ),
        decreases N - i,
    {
        i = i + 1;
    }
    proof {
        lemma_value_in_range(table@, i as int, x as int);
    }
    if i + 1 >= N {
        table[N - 1].1
    } else {
        let p = table[i];
        let q = table[i + 1];
        proof {
            lemma_mul_div_fraction(q.1 - p.1, x - p.0, q.0 - p.0);
        }
        let rise = mul_div(q.1 - p.1, x - p.0, q.0 - p.0);
        p.1 + rise.unwrap()
    }
}

} // verus!
