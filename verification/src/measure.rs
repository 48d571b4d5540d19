//! What a shooter reads off a snapshot: how far the projectile is from the
//! line of sight, as a length and as an angle, and which way to adjust.

use vstd::prelude::*;
use crate::fixed::{abs_int, mul_div_sat, scale, NANO};
use crate::trajectory::Packet;
use crate::units::{Angle, Energy, Length, Numeric, Time, Velocity};
use crate::vector::Vector3;

verus! {

/// Minutes of arc in one radian, in millionths.
pub const MICRO_MINUTES_PER_RADIAN: i64 = 3_437_746_771;

/// A deviation from the line of sight, up or to the right.
#[derive(Clone, Copy, Debug, PartialEq, Eq, Structural)]
pub enum Adjustment {
    Elevation(Length),
    Windage(Length),
}

/// The mark for a deviation, given the marks for a deviation beyond the
/// tolerance on the positive and on the negative side.
pub open spec fn mark_spec(n: int, tolerance: int, positive: char, negative: char) -> char {
    if n > tolerance {
        positive
    } else if n < -tolerance {
        negative
    } else {
        '*'
    }
}

/// The angle under which a deviation is seen from the sight, to first
/// order: the deviation over the distance, in nanoradians.  Zero at and
/// behind the sight.
pub open spec fn subtended_spec(deviation: i64, distance: i64) -> i64 {
    if distance > 0 {
        scale(deviation as int, NANO as int, distance as int)
    } else {
        0
    }
}

/// The angle under which a deviation is seen, counted as zero where the
/// deviation lies within the tolerance.
pub open spec fn correction_spec(deviation: i64, distance: i64, tolerance: i64) -> i64 {
    if abs_int(deviation as int) <= tolerance {
        0
    } else {
        subtended_spec(deviation, distance)
    }
}

impl Adjustment {
    /// The adjustment that corrects the shot: `'D'` (down) for a deviation
    /// upward and `'U'` (up) for one downward, `'L'` (left) for one to the
    /// right and `'R'` (right) for one to the left, each beyond the
    /// tolerance; `'*'` within it.
    pub open spec fn adjustment_spec(self, tolerance: Length) -> char {
        match self {
            Adjustment::Elevation(n) => mark_spec(
                n.nanometers as int,
                tolerance.nanometers as int,
                'D',
                'U',
            ),
            Adjustment::Windage(n) => mark_spec(
                n.nanometers as int,
                tolerance.nanometers as int,
                'L',
                'R',
            ),
        }
    }

    /// Shows the adjustment needed to correct the shot.
    pub fn adjustment(&self, tolerance: Length) -> (mark: char)
        ensures
            mark == self.adjustment_spec(tolerance),
    {
        let (n, positive, negative) = match *self {
            Adjustment::Elevation(n) => (n, 'D', 'U'),
            Adjustment::Windage(n) => (n, 'L', 'R'),
        };
        if n.nanometers > tolerance.nanometers {
            positive
        } else if (n.nanometers as i128) < -(tolerance.nanometers as i128) {
            negative
        } else {
            '*'
        }
    }
}

/// The angle under which a deviation is seen from the sight.
fn subtended(deviation: i64, distance: i64) -> (r: i64)
    ensures
        r == subtended_spec(deviation, distance),
{
    if distance > 0 {
        mul_div_sat(deviation, NANO, distance)
    } else {
        0
    }
}

/// Whether a deviation lies within a tolerance.
fn within_tolerance(deviation: i64, tolerance: i64) -> (b: bool)
    ensures
        b == (abs_int(deviation as int) <= tolerance),
{
    let d: i128 = deviation as i128;
    let t: i128 = tolerance as i128;
    -t <= d && d <= t
}

impl Packet {
    pub fn time(&self) -> (r: Time)
        ensures
            r == self.time,
    {
        self.time
    }

    pub fn distance(&self) -> (r: Length)
        ensures
            r == self.distance,
    {
        self.distance
    }

    pub fn elevation(&self) -> (r: Length)
        ensures
            r == self.elevation,
    {
        self.elevation
    }

    pub fn windage(&self) -> (r: Length)
        ensures
            r == self.windage,
    {
        self.windage
    }

    pub fn velocity(&self) -> (r: Velocity)
        ensures
            r == self.velocity,
    {
        self.velocity
    }

    pub fn energy(&self) -> (r: Energy)
        ensures
            r == self.energy,
    {
        self.energy
    }

    pub fn mach(&self) -> (r: Numeric)
        ensures
            r == self.mach,
    {
        self.mach
    }

    /// The angle between the line of sight and the line from the sight to
    /// the projectile.
    pub fn angle(&self) -> (r: Angle)
        ensures
            r.nanoradians == subtended_spec(
                (Vector3 { x: 0, y: self.elevation.nanometers, z: self.windage.nanometers }).norm(),
                self.distance.nanometers,
            ),
    {
        let off = Vector3 { x: 0, y: self.elevation.nanometers, z: self.windage.nanometers };
        Angle { nanoradians: subtended(off.length(), self.distance.nanometers) }
    }

    /// The elevation as an angle seen from the sight; zero where the
    /// elevation lies within the tolerance.
    pub fn vertical_angle(&self, tolerance: Length) -> (r: Angle)
        ensures
            r.nanoradians == correction_spec(
                self.elevation.nanometers,
                self.distance.nanometers,
                tolerance.nanometers,
            ),
    {
        if within_tolerance(self.elevation.nanometers, tolerance.nanometers) {
            Angle { nanoradians: 0 }
        } else {
            Angle { nanoradians: subtended(self.elevation.nanometers, self.distance.nanometers) }
        }
    }

    /// The windage as an angle seen from the sight; zero where the windage
    /// lies within the tolerance.
    pub fn horizontal_angle(&self, tolerance: Length) -> (r: Angle)
        ensures
            r.nanoradians == correction_spec(
                self.windage.nanometers,
                self.distance.nanometers,
                tolerance.nanometers,
            ),
    {
        if within_tolerance(self.windage.nanometers, tolerance.nanometers) {
            Angle { nanoradians: 0 }
        } else {
            Angle { nanoradians: subtended(self.windage.nanometers, self.distance.nanometers) }
        }
    }

    /// The adjustment that corrects the elevation.
    pub fn vertical_adjustment(&self, tolerance: Length) -> (mark: char)
        ensures
            mark == Adjustment::Elevation(self.elevation).adjustment_spec(tolerance),
    {
        Adjustment::Elevation(self.elevation).adjustment(tolerance)
    }

    /// The adjustment that corrects the windage.
    pub fn horizontal_adjustment(&self, tolerance: Length) -> (mark: char)
        ensures
            mark == Adjustment::Windage(self.windage).adjustment_spec(tolerance),
    {
        Adjustment::Windage(self.windage).adjustment(tolerance)
    }
}

impl Angle {
    /// This angle in millionths of a minute of arc.
    pub open spec fn micro_minutes_spec(self) -> i64 {
        scale(self.nanoradians as int, MICRO_MINUTES_PER_RADIAN as int, NANO as int)
    }

    /// This angle in millionths of a minute of arc.
    pub fn micro_minutes(&self) -> (r: i64)
        ensures
            r == self.micro_minutes_spec(),
    {
        mul_div_sat(self.nanoradians, MICRO_MINUTES_PER_RADIAN, NANO)
    }
}

} // verus!
