//! Scaled integer arithmetic: the building blocks of every formula in the
//! crate.  All rounding is truncation toward zero.

use vstd::prelude::*;

verus! {

/// One million: the scale of dimensionless ratios given in parts per million.
pub const MICRO: i64 = 1_000_000;

/// One billion: the scale of canonical units (nano) and of computed ratios.
pub const NANO: i64 = 1_000_000_000;

/// One trillion: the scale of quantities kept in pico units.
pub const PICO: i64 = 1_000_000_000_000;

/// Whether a mathematical integer is representable as an `i64`.
pub open spec fn fits_i64(x: int) -> bool {
    i64::MIN <= x <= i64::MAX
}

/// Absolute value of a mathematical integer.
pub open spec fn abs_int(x: int) -> int {
    if x < 0 {
        -x
    } else {
        x
    }
}

/// Quotient of `n` by a positive `d`, rounded toward zero.
pub open spec fn trunc_div(n: int, d: int) -> int
    recommends
        d > 0,
{
    if n >= 0 {
        n / d
    } else {
        -((-n) / d)
    }
}

/// The scaled product `a * b / d`, rounded toward zero.
pub open spec fn mul_div_int(a: int, b: int, d: int) -> int
    recommends
        d > 0,
{
    trunc_div(a * b, d)
}

/// The scaled product where it is representable, `None` where it is not.
pub open spec fn mul_div_spec(a: int, b: int, d: int) -> Option<i64>
    recommends
        d > 0,
{
    let q = mul_div_int(a, b, d);
    if fits_i64(q) {
        Some(q as i64)
    } else {
        None
    }
}

/// The nearest `i64` to a mathematical integer.
pub open spec fn saturate(x: int) -> i64 {
    if x > i64::MAX {
        i64::MAX
    } else if x < i64::MIN {
        i64::MIN
    } else {
        x as i64
    }
}

/// The scaled product `a * b / d`, rounded toward zero and saturated.
pub open spec fn scale(a: int, b: int, d: int) -> i64
    recommends
        d > 0,
{
    saturate(mul_div_int(a, b, d))
}

/// The saturated sum.
pub open spec fn plus(a: int, b: int) -> i64 {
    saturate(a + b)
}

/// The saturated difference.
pub open spec fn minus(a: int, b: int) -> i64 {
    saturate(a - b)
}

/// The saturated negation.
pub open spec fn negate(a: int) -> i64 {
    saturate(-a)
}

/// Whether `r` is the integer square root of `n`: the largest natural
/// number whose square does not exceed `n`.
pub open spec fn is_isqrt(n: int, r: int) -> bool {
    &&& 0 <= r
    &&& r * r <= n
    &&& n < (r + 1) * (r + 1)
}

/// The integer square root of a natural number.
pub open spec fn isqrt_spec(n: int) -> int {
    choose|r: int| is_isqrt(n, r)
}

/// Truncating division never grows a magnitude and keeps the sign.
pub proof fn lemma_trunc_div_bounds(n: int, d: int)
    requires
        d > 0,
    ensures
        abs_int(trunc_div(n, d)) <= abs_int(n),
        n >= 0 ==> trunc_div(n, d) >= 0,
        n <= 0 ==> trunc_div(n, d) <= 0,
        trunc_div(-n, d) == -trunc_div(n, d),
        trunc_div(0, d) == 0,
{
    let m = abs_int(n);
    assert(0 <= m / d <= m) by (nonlinear_arith)
        requires
            m >= 0,
            d > 0,
    ;
    assert(0int / d == 0) by (nonlinear_arith)
        requires
            d > 0,
    ;
}

/// Truncating division is monotone in its numerator.
pub proof fn lemma_trunc_div_monotone(a: int, b: int, d: int)
    requires
        d > 0,
        a <= b,
    ensures
        trunc_div(a, d) <= trunc_div(b, d),
{
    lemma_trunc_div_bounds(a, d);
    lemma_trunc_div_bounds(b, d);
    if a >= 0 {
        assert(a / d <= b / d) by (nonlinear_arith)
            requires
                0 <= a <= b,
                d > 0,
        ;
    } else if b < 0 {
        assert((-b) / d <= (-a) / d) by (nonlinear_arith)
            requires
                0 <= -b <= -a,
                d > 0,
        ;
    }
}

/// Scaling by a fraction `t / d` between zero and one never grows a magnitude
/// and keeps the sign.
pub proof fn lemma_mul_div_fraction(k: int, t: int, d: int)
    requires
        0 <= t <= d,
        d > 0,
    ensures
        abs_int(mul_div_int(k, t, d)) <= abs_int(k),
        k >= 0 ==> mul_div_int(k, t, d) >= 0,
        k <= 0 ==> mul_div_int(k, t, d) <= 0,
        t == 0 ==> mul_div_int(k, t, d) == 0,
        t == d ==> mul_div_int(k, t, d) == k,
{
    let m = abs_int(k);
    assert(abs_int(k * t) == m * t && (k >= 0 ==> k * t >= 0) && (k <= 0 ==> k * t <= 0))
        by (nonlinear_arith)
        requires
            m == abs_int(k),
            t >= 0,
    ;
    assert(0 <= (m * t) / d <= m) by (nonlinear_arith)
        requires
            0 <= t <= d,
            d > 0,
            m >= 0,
    ;
    assert(0int / d == 0) by (nonlinear_arith)
        requires
            d > 0,
    ;
    if t == 0 {
        assert(k * t == 0) by (nonlinear_arith)
            requires
                t == 0,
        ;
    }
    if t == d {
        assert((m * d) / d == m) by (nonlinear_arith)
            requires
                d > 0,
                m >= 0,
        ;
    }
}

/// Scaling zero, or scaling by zero, gives zero.
pub proof fn lemma_scale_zero(a: int, d: int)
    requires
        d > 0,
    ensures
        scale(0, a, d) == 0,
        scale(a, 0, d) == 0,
{
    assert(0 * a == 0 && a * 0 == 0) by (nonlinear_arith);
    lemma_trunc_div_bounds(0, d);
}

/// Scaling by one leaves a value as it is.
pub proof fn lemma_scale_one(a: i64, d: int)
    requires
        d > 0,
    ensures
        scale(a as int, d, d) == a,
{
    let m = abs_int(a as int);
    assert((m * d) / d == m) by (nonlinear_arith)
        requires
            d > 0,
            m >= 0,
    ;
    assert((-(a as int)) * d == -((a as int) * d)) by (nonlinear_arith);
    assert((a >= 0 ==> (a as int) * d >= 0) && (a < 0 ==> (a as int) * d < 0))
        by (nonlinear_arith)
        requires
            d > 0,
    ;
}

/// Saturating never grows a magnitude and keeps the sign.
pub proof fn lemma_saturate_bounds(x: int)
    ensures
        abs_int(saturate(x) as int) <= abs_int(x),
        x >= 0 ==> saturate(x) >= 0,
        x <= 0 ==> saturate(x) <= 0,
        fits_i64(x) ==> saturate(x) == x,
{
}

/// Scaling by a factor that is not negative keeps the sign.
pub proof fn lemma_scale_sign(a: int, b: int, d: int)
    requires
        d > 0,
        b >= 0,
    ensures
        a >= 0 ==> scale(a, b, d) >= 0,
        a <= 0 ==> scale(a, b, d) <= 0,
{
    assert((a >= 0 ==> a * b >= 0) && (a <= 0 ==> a * b <= 0)) by (nonlinear_arith)
        requires
            b >= 0,
    ;
    lemma_trunc_div_bounds(a * b, d);
}

/// Scaling by a factor that is not negative keeps the order.
pub proof fn lemma_scale_monotone(a: int, c: int, b: int, d: int)
    requires
        d > 0,
        b >= 0,
        a <= c,
    ensures
        scale(a, b, d) <= scale(c, b, d),
{
    assert(a * b <= c * b) by (nonlinear_arith)
        requires
            a <= c,
            b >= 0,
    ;
    lemma_trunc_div_monotone(a * b, c * b, d);
}

/// A scaled product of bounded values is bounded, and exact where its
/// bound is representable.
pub proof fn lemma_scale_within(a: int, b: int, d: int, most_a: int, most_b: int)
    requires
        d > 0,
        abs_int(a) <= most_a,
        abs_int(b) <= most_b,
        most_a * most_b <= d * i64::MAX,
    ensures
        scale(a, b, d) == mul_div_int(a, b, d),
        abs_int(mul_div_int(a, b, d)) <= (most_a * most_b) / d,
        abs_int(mul_div_int(a, b, d)) <= i64::MAX,
{
    let m = abs_int(a * b);
    assert(m <= most_a * most_b) by (nonlinear_arith)
        requires
            m == abs_int(a * b),
            abs_int(a) <= most_a,
            abs_int(b) <= most_b,
    ;
    lemma_trunc_div_bounds(a * b, d);
    assert(m / d <= (most_a * most_b) / d && (most_a * most_b) / d <= i64::MAX)
        by (nonlinear_arith)
        requires
            0 <= m <= most_a * most_b,
            most_a * most_b <= d * i64::MAX,
            d > 0,
    ;
}

/// The integer square root of a square.
pub proof fn lemma_isqrt_of_square(r: int)
    requires
        r >= 0,
    ensures
        isqrt_spec(r * r) == r,
{
    assert(r * r >= 0 && r * r < (r + 1) * (r + 1)) by (nonlinear_arith)
        requires
            r >= 0,
    ;
    lemma_isqrt_exists(r * r);
    lemma_isqrt_unique(r * r, r, isqrt_spec(r * r));
}

/// Every natural number has an integer square root.
pub proof fn lemma_isqrt_exists(n: int)
    requires
        n >= 0,
    ensures
        is_isqrt(n, isqrt_spec(n)),
    decreases n,
{
    if n == 0 {
        assert(is_isqrt(0, 0));
    } else {
        lemma_isqrt_exists(n - 1);
        let r = isqrt_spec(n - 1);
        if n < (r + 1) * (r + 1) {
            assert(is_isqrt(n, r));
        } else {
            assert(n < (r + 2) * (r + 2)) by (nonlinear_arith)
                requires
                    n - 1 < (r + 1) * (r + 1),
                    r >= 0,
            ;
            assert(is_isqrt(n, r + 1));
        }
    }
}

/// The integer square root is monotone.
pub proof fn lemma_isqrt_monotone(a: int, b: int)
    requires
        0 <= a <= b,
    ensures
        isqrt_spec(a) <= isqrt_spec(b),
{
    lemma_isqrt_exists(a);
    lemma_isqrt_exists(b);
    let r = isqrt_spec(a);
    let s = isqrt_spec(b);
    if s < r {
        assert((s + 1) * (s + 1) <= r * r) by (nonlinear_arith)
            requires
                0 <= s,
                s + 1 <= r,
        ;
    }
}

/// The integer square root is unique.
pub proof fn lemma_isqrt_unique(n: int, r: int, s: int)
    requires
        is_isqrt(n, r),
        is_isqrt(n, s),
    ensures
        r == s,
{
    if r < s {
        assert((r + 1) * (r + 1) <= s * s) by (nonlinear_arith)
            requires
                0 <= r,
                r + 1 <= s,
        ;
    } else if s < r {
        assert((s + 1) * (s + 1) <= r * r) by (nonlinear_arith)
            requires
                0 <= s,
                s + 1 <= r,
        ;
    }
}

/// Magnitude of `x` as an unsigned value.
pub fn magnitude(x: i64) -> (r: u64)
    ensures
        r == abs_int(x as int),
{
    if x >= 0 {
        x as u64
    } else if x == i64::MIN {
        0x8000_0000_0000_0000u64
    } else {
        (-x) as u64
    }
}

/// Computes `a * b / d`, rounded toward zero, without losing the high bits
/// of the product.  Returns `None` exactly when the quotient leaves `i64`.
pub fn mul_div(a: i64, b: i64, d: i64) -> (r: Option<i64>)
    requires
        d > 0,
    ensures
        r == mul_div_spec(a as int, b as int, d as int),
{
    let ma: u128 = magnitude(a) as u128;
    let mb: u128 = magnitude(b) as u128;
    let negative: bool = (a < 0) != (b < 0);
    assert(ma * mb <= 0x4000_0000_0000_0000_0000_0000_0000_0000) by (nonlinear_arith)
        requires
            ma <= 0x8000_0000_0000_0000,
            mb <= 0x8000_0000_0000_0000,
    ;
    let p: u128 = ma * mb;
    let q: u128 = p / (d as u128);
    proof {
        let ai = a as int;
        let bi = b as int;
        assert(abs_int(ai * bi) == ma * mb && (ai * bi < 0 ==> negative) && (negative ==> ai
            * bi <= 0)) by (nonlinear_arith)
            requires
                ma == abs_int(ai),
                mb == abs_int(bi),
                negative == ((ai < 0) != (bi < 0)),
        ;
        if negative && ai * bi == 0 {
            assert(0int / (d as int) == 0) by (nonlinear_arith)
                requires
                    d > 0,
            ;
        }
        assert(abs_int(mul_div_int(ai, bi, d as int)) == q);
    }
    if negative {
        if q <= 0x8000_0000_0000_0000u128 {
            if q == 0x8000_0000_0000_0000u128 {
                Some(i64::MIN)
            } else {
                Some(-(q as i64))
            }
        } else {
            None
        }
    } else {
        if q <= 0x7fff_ffff_ffff_ffffu128 {
            Some(q as i64)
        } else {
            None
        }
    }
}

/// Computes `a * b / d`, rounded toward zero and saturated at the limits of
/// `i64`.
pub fn mul_div_sat(a: i64, b: i64, d: i64) -> (r: i64)
    requires
        d > 0,
    ensures
        r == scale(a as int, b as int, d as int),
{
    match mul_div(a, b, d) {
        Some(q) => q,
        None => {
            proof {
                let ai = a as int;
                let bi = b as int;
                assert(((ai < 0) != (bi < 0)) ==> ai * bi <= 0) by (nonlinear_arith);
                assert(((ai < 0) == (bi < 0)) ==> ai * bi >= 0) by (nonlinear_arith);
                lemma_trunc_div_bounds(ai * bi, d as int);
            }
            if (a < 0) != (b < 0) {
                i64::MIN
            } else {
                i64::MAX
            }
        },
    }
}

/// Adds two values, saturating at the limits of `i64`.
pub fn add_sat(a: i64, b: i64) -> (r: i64)
    ensures
        r == plus(a as int, b as int),
{
    match a.checked_add(b) {
        Some(s) => s,
        None => if b < 0 {
            i64::MIN
        } else {
            i64::MAX
        },
    }
}

/// Subtracts two values, saturating at the limits of `i64`.
pub fn sub_sat(a: i64, b: i64) -> (r: i64)
    ensures
        r == minus(a as int, b as int),
{
    match a.checked_sub(b) {
        Some(s) => s,
        None => if b < 0 {
            i64::MAX
        } else {
            i64::MIN
        },
    }
}

/// Negates a value, saturating at the limits of `i64`.
pub fn neg_sat(a: i64) -> (r: i64)
    ensures
        r == negate(a as int),
{
    if a == i64::MIN {
        i64::MAX
    } else {
        -a
    }
}

/// Integer square root by bisection.
pub fn isqrt(n: u128) -> (r: u64)
    ensures
        is_isqrt(n as int, r as int),
        r == isqrt_spec(n as int),
{
    let mut lo: u128 = 0;
    let mut hi: u128 = 0x1_0000_0000_0000_0000;
    assert(hi * hi > n) by (nonlinear_arith)
        requires
            hi == 0x1_0000_0000_0000_0000,
            n <= u128::MAX,
    ;
    while hi - lo > 1
        invariant
            lo < hi <= 0x1_0000_0000_0000_0000,
            lo * lo <= n,
            n < hi * hi,
        decreases hi - lo,
    {
        let mid: u128 = lo + (hi - lo) / 2;
        assert(mid * mid <= u128::MAX) by (nonlinear_arith)
            requires
                mid <= 0xffff_ffff_ffff_ffff,
        ;
        if mid * mid <= n {
            lo = mid;
        } else {
            hi = mid;
        }
    }
    proof {
        lemma_isqrt_unique(n as int, lo as int, isqrt_spec(n as int));
    }
    lo as u64
}

} // verus!
