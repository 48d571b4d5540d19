//! Typed physical quantities.  Each wraps an integer count of one canonical
//! unit, so two quantities of different kinds can never be confused.

use vstd::prelude::*;

verus! {

/// Nanometres in one inch.
pub const NM_PER_INCH: i64 = 25_400_000;

/// Nanometres in one foot.
pub const NM_PER_FOOT: i64 = 304_800_000;

/// Nanometres in one yard.
pub const NM_PER_YARD: i64 = 914_400_000;

/// Nanograms in one grain.
pub const NG_PER_GRAIN: i64 = 64_798_910;

/// Millipascals in one inch of mercury.
pub const MPA_PER_INCH_HG: i64 = 3_386_389;

/// A dimensionless number in millionths.
#[derive(Clone, Copy, Debug, PartialEq, Eq, Structural)]
pub struct Numeric {
    pub millionths: i64,
}

/// A length in nanometres.
#[derive(Clone, Copy, Debug, PartialEq, Eq, Structural)]
pub struct Length {
    pub nanometers: i64,
}

/// A duration in nanoseconds.
#[derive(Clone, Copy, Debug, PartialEq, Eq, Structural)]
pub struct Time {
    pub nanoseconds: i64,
}

/// A speed, or one component of a velocity, in nanometres per second.
#[derive(Clone, Copy, Debug, PartialEq, Eq, Structural)]
pub struct Velocity {
    pub nm_per_s: i64,
}

/// An acceleration in nanometres per second squared.
#[derive(Clone, Copy, Debug, PartialEq, Eq, Structural)]
pub struct Acceleration {
    pub nm_per_s2: i64,
}

/// A mass in nanograms.
#[derive(Clone, Copy, Debug, PartialEq, Eq, Structural)]
pub struct Mass {
    pub nanograms: i64,
}

/// An angle in nanoradians.
#[derive(Clone, Copy, Debug, PartialEq, Eq, Structural)]
pub struct Angle {
    pub nanoradians: i64,
}

/// A pressure in millipascals.
#[derive(Clone, Copy, Debug, PartialEq, Eq, Structural)]
pub struct Pressure {
    pub millipascals: i64,
}

/// An absolute temperature in millikelvin.
#[derive(Clone, Copy, Debug, PartialEq, Eq, Structural)]
pub struct ThermodynamicTemperature {
    pub millikelvin: i64,
}

/// An energy in microjoules.
#[derive(Clone, Copy, Debug, PartialEq, Eq, Structural)]
pub struct Energy {
    pub microjoules: i64,
}

} // verus!
