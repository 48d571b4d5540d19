//! Sine and cosine of an angle in nanoradians, as billionths, by their power
//! series in scaled integer arithmetic.

use vstd::prelude::*;
use crate::fixed::{abs_int, add_sat, magnitude, mul_div_sat, neg_sat, negate, plus, scale, NANO};
use crate::units::Angle;

verus! {

/// Half a turn in nanoradians, rounded toward zero.
pub const HALF_TURN: i64 = 3_141_592_653;

/// A full turn in nanoradians, rounded toward zero.
pub const FULL_TURN: i64 = 6_283_185_307;

/// The last factor of the largest factorial that the sine series divides by.
pub const SINE_LAST: i64 = 24;

/// The last but one factor of the largest factorial that the cosine series
/// divides by.
pub const COSINE_LAST: i64 = 23;

/// An angle brought into the half-open turn around zero: the remainder of
/// its magnitude by a full turn, with its sign, moved by one full turn where
/// it lies beyond half a turn.
pub open spec fn reduce_spec(x: int) -> int {
    let m = abs_int(x) % (FULL_TURN as int);
    let r = if x < 0 {
        -m
    } else {
        m
    };
    if r > HALF_TURN {
        r - FULL_TURN
    } else if r < -HALF_TURN {
        r + FULL_TURN
    } else {
        r
    }
}

/// A value held to the unit interval `[-NANO, NANO]`.
pub open spec fn clamp_unit(x: int) -> int {
    if x > NANO {
        NANO as int
    } else if x < -NANO {
        -NANO as int
    } else {
        x
    }
}

/// The term that follows `term` in an alternating power series in `r`:
/// `-term * r * r / (n * (n + 1))`.
pub open spec fn next_term(r: int, term: int, n: int) -> i64 {
    let square = scale(scale(term, r, NANO as int) as int, r, NANO as int);
    negate(scale(square as int, 1, n * (n + 1)) as int)
}

/// The sum `acc` of an alternating power series in `r`, continued from
/// `term` through the terms whose divisors `n * (n + 1)` run up to `last`.
pub open spec fn series(r: int, term: int, acc: int, n: int, last: int) -> int
    decreases last + 2 - n,
{
    if n > last || n < 1 {
        acc
    } else {
        let next = next_term(r, term, n);
        series(r, next as int, plus(acc, next as int) as int, n + 2, last)
    }
}

/// The sine of `x` nanoradians in billionths:
/// `r - r^3/3! + r^5/5! - ...` for the reduced angle `r`.
pub open spec fn sin_spec(x: int) -> int {
    let r = reduce_spec(x);
    clamp_unit(series(r, r, r, 2, SINE_LAST as int))
}

/// The cosine of `x` nanoradians in billionths:
/// `1 - r^2/2! + r^4/4! - ...` for the reduced angle `r`.
pub open spec fn cos_spec(x: int) -> int {
    let r = reduce_spec(x);
    clamp_unit(series(r, NANO as int, NANO as int, 1, COSINE_LAST as int))
}

/// At the zero angle every term after the first vanishes.
pub proof fn lemma_series_at_zero(term: int, acc: int, n: int, last: int)
    requires
        i64::MIN <= acc <= i64::MAX,
    ensures
        series(0, term, acc, n, last) == acc,
    decreases last + 2 - n,
{
    if n > last || n < 1 {
    } else {
        assert(term * 0 == 0);
        assert(scale(term, 0, NANO as int) == 0);
        assert(scale(0, 0, NANO as int) == 0);
        assert(n * (n + 1) > 0 && 0int / (n * (n + 1)) == 0) by (nonlinear_arith)
            requires
                n >= 1,
        ;
        assert(scale(0, 1, n * (n + 1)) == 0);
        assert(next_term(0, term, n) == 0);
        lemma_series_at_zero(0, acc, n + 2, last);
    }
}

/// The sine of zero is zero and its cosine is one.
pub proof fn lemma_trig_at_zero()
    ensures
        sin_spec(0) == 0,
        cos_spec(0) == NANO,
{
    lemma_series_at_zero(0, 0, 2, SINE_LAST as int);
    lemma_series_at_zero(NANO as int, NANO as int, 1, COSINE_LAST as int);
}

/// Brings an angle into the half-open turn around zero.
pub fn reduce(x: i64) -> (r: i64)
    ensures
        r == reduce_spec(x as int),
        -HALF_TURN <= r <= HALF_TURN,
{
    let m: i64 = (magnitude(x) % (FULL_TURN as u64)) as i64;
    let r: i64 = if x < 0 {
        -m
    } else {
        m
    };
    if r > HALF_TURN {
        r - FULL_TURN
    } else if r < -HALF_TURN {
        r + FULL_TURN
    } else {
        r
    }
}

/// Sums an alternating power series in `r`.
fn sum_series(r: i64, first: i64, start: i64, last: i64) -> (sum: i64)
    requires
        1 <= start,
        last <= 1000,
    ensures
        sum == series(r as int, first as int, first as int, start as int, last as int),
{
    let mut term: i64 = first;
    let mut acc: i64 = first;
    let mut n: i64 = start;
    while n <= last
        invariant
            1 <= start <= n,
            last <= 1000,
            series(r as int, first as int, first as int, start as int, last as int) == series(
                r as int,
                term as int,
                acc as int,
                n as int,
                last as int,
            ),
        decreases last + 2 - n,
    {
        assert(0 < n * (n + 1) <= 1000 * 1001) by (nonlinear_arith)
            requires
                1 <= n <= 1000,
        ;
        let square = mul_div_sat(mul_div_sat(term, r, NANO), r, NANO);
        term = neg_sat(mul_div_sat(square, 1, n * (n + 1)));
        acc = add_sat(acc, term);
        n = n + 2;
    }
    acc
}

/// Holds a value to the unit interval.
fn clamp(x: i64) -> (r: i64)
    ensures
        r == clamp_unit(x as int),
        -NANO <= r <= NANO,
{
    if x > NANO {
        NANO
    } else if x < -NANO {
        -NANO
    } else {
        x
    }
}

/// The sine of an angle, in billionths.
pub fn sin(angle: Angle) -> (r: i64)
    ensures
        r == sin_spec(angle.nanoradians as int),
        -NANO <= r <= NANO,
{
    let x = reduce(angle.nanoradians);
    clamp(sum_series(x, x, 2, SINE_LAST))
}

/// The cosine of an angle, in billionths.
pub fn cos(angle: Angle) -> (r: i64)
    ensures
        r == cos_spec(angle.nanoradians as int),
        -NANO <= r <= NANO,
{
    let x = reduce(angle.nanoradians);
    clamp(sum_series(x, NANO, 1, COSINE_LAST))
}

} // verus!
