//! Three-component vectors of scaled integers.

use vstd::prelude::*;
use crate::fixed::{
    abs_int, add_sat, isqrt, isqrt_spec, magnitude, minus, mul_div_sat, plus, saturate, scale,
    sub_sat,
};

verus! {

/// A vector in the frame of the line of sight: `x` runs downrange along the
/// line of sight, `y` upward across it, `z` to the right.
#[derive(Clone, Copy, Debug, PartialEq, Eq, Structural)]
pub struct Vector3 {
    pub x: i64,
    pub y: i64,
    pub z: i64,
}

impl Vector3 {
    /// The zero vector.
    pub open spec fn zero_spec() -> Vector3 {
        Vector3 { x: 0, y: 0, z: 0 }
    }

    /// The saturated sum of two vectors.
    pub open spec fn plus(self, other: Vector3) -> Vector3 {
        Vector3 {
            x: plus(self.x as int, other.x as int),
            y: plus(self.y as int, other.y as int),
            z: plus(self.z as int, other.z as int),
        }
    }

    /// The saturated difference of two vectors.
    pub open spec fn minus(self, other: Vector3) -> Vector3 {
        Vector3 {
            x: minus(self.x as int, other.x as int),
            y: minus(self.y as int, other.y as int),
            z: minus(self.z as int, other.z as int),
        }
    }

    /// Each component multiplied by `b / d`.
    pub open spec fn scaled(self, b: int, d: int) -> Vector3 {
        Vector3 {
            x: scale(self.x as int, b, d),
            y: scale(self.y as int, b, d),
            z: scale(self.z as int, b, d),
        }
    }

    /// The sum of the squared components.
    pub open spec fn norm_squared(self) -> int {
        self.x * self.x + self.y * self.y + self.z * self.z
    }

    /// The length of the vector: the integer square root of the sum of the
    /// squared components, saturated.
    pub open spec fn norm(self) -> i64 {
        saturate(isqrt_spec(self.norm_squared()))
    }

    /// The zero vector.
    pub fn zero() -> (r: Vector3)
        ensures
            r == Vector3::zero_spec(),
    {
        Vector3 { x: 0, y: 0, z: 0 }
    }

    /// Adds two vectors component by component.
    pub fn add(&self, other: &Vector3) -> (r: Vector3)
        ensures
            r == self.plus(*other),
    {
        Vector3 {
            x: add_sat(self.x, other.x),
            y: add_sat(self.y, other.y),
            z: add_sat(self.z, other.z),
        }
    }

    /// Subtracts `other` component by component.
    pub fn sub(&self, other: &Vector3) -> (r: Vector3)
        ensures
            r == self.minus(*other),
    {
        Vector3 {
            x: sub_sat(self.x, other.x),
            y: sub_sat(self.y, other.y),
            z: sub_sat(self.z, other.z),
        }
    }

    /// Multiplies each component by `b / d`.
    pub fn scale(&self, b: i64, d: i64) -> (r: Vector3)
        requires
            d > 0,
        ensures
            r == self.scaled(b as int, d as int),
    {
        Vector3 {
            x: mul_div_sat(self.x, b, d),
            y: mul_div_sat(self.y, b, d),
            z: mul_div_sat(self.z, b, d),
        }
    }

    /// The length of the vector.
    pub fn length(&self) -> (r: i64)
        ensures
            r == self.norm(),
            r >= 0,
            r == 0 <==> *self == Vector3::zero_spec(),
    {
        let sx = square(self.x);
        let sy = square(self.y);
        let sz = square(self.z);
        let n: u128 = sx + sy + sz;
        let root: u64 = isqrt(n);
        proof {
            if root == 0 {
                assert(n < 1) by (nonlinear_arith)
                    requires
                        n < (root + 1) * (root + 1),
                        root == 0,
                ;
                assert(self.x == 0) by (nonlinear_arith)
                    requires
                        self.x * self.x == 0,
                ;
                assert(self.y == 0) by (nonlinear_arith)
                    requires
                        self.y * self.y == 0,
                ;
                assert(self.z == 0) by (nonlinear_arith)
                    requires
                        self.z * self.z == 0,
                ;
            } else {
                assert(n > 0) by (nonlinear_arith)
                    requires
                        root * root <= n,
                        root > 0,
                ;
            }
        }
        if root > i64::MAX as u64 {
            i64::MAX
        } else {
            root as i64
        }
    }
}

/// The square of a component, which always fits in `u128`.
fn square(a: i64) -> (r: u128)
    ensures
        r == a * a,
        r <= 0x4000_0000_0000_0000_0000_0000_0000_0000,
{
    let m: u128 = magnitude(a) as u128;
    assert(m * m <= 0x4000_0000_0000_0000_0000_0000_0000_0000 && m * m == a * a)
        by (nonlinear_arith)
        requires
            m <= 0x8000_0000_0000_0000,
            m == abs_int(a as int),
    ;
    m * m
}

} // verus!
