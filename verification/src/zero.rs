//! Zeroing: the search for the launch angles that put the projectile on a
//! target.

use vstd::prelude::*;
use crate::config::{valid_parameters, Parameters, SimulationConfig};
use crate::fixed::{abs_int, minus, mul_div_sat, scale, sub_sat, NANO};
use crate::trajectory::{
    flying, has_packet, lemma_time_advances, packet_at, reached, state_at, Packet, Trajectory,
};
use crate::units::{Angle, Length};

verus! {

/// The most trajectories that zeroing runs before it gives up.
pub const MAX_ZERO_ITERATIONS: u32 = 50;

/// The point to hit: its distance along the line of sight, its height above
/// and its offset to the right of the line of sight, and the miss that is
/// still a hit.
#[derive(Clone, Copy, Debug, PartialEq, Eq, Structural)]
pub struct Target {
    pub distance: Length,
    pub height: Length,
    pub offset: Length,
    pub tolerance: Length,
}

/// Why zeroing failed.
#[derive(Clone, Copy, Debug, PartialEq, Eq, Structural)]
pub enum ZeroError {
    /// The target is not in front of the muzzle.
    NonPositiveDistance,
    /// A trajectory ended before it came as far as the target.
    TargetNotReached,
    /// The misses did not come within the tolerance in
    /// `MAX_ZERO_ITERATIONS` trajectories.
    DidNotConverge,
}

/// Whether the `n`-th snapshot is the first at or past `distance`.
pub open spec fn crosses_at(p: Parameters, pitch: Angle, yaw: Angle, distance: Length, n: nat) -> bool {
    &&& has_packet(p, pitch, yaw, n)
    &&& packet_at(p, pitch, yaw, n).distance.nanometers >= distance.nanometers
    &&& forall|k: nat|
        k < n ==> (#[trigger] packet_at(p, pitch, yaw, k)).distance.nanometers
            < distance.nanometers
}

/// Whether the flight ends after `n` snapshots that all lie short of
/// `distance`.
pub open spec fn stops_short_at(
    p: Parameters,
    pitch: Angle,
    yaw: Angle,
    distance: Length,
    n: nat,
) -> bool {
    &&& reached(p, pitch, yaw, n)
    &&& !flying(p, state_at(p, pitch, yaw, n))
    &&& forall|k: nat|
        k < n ==> (#[trigger] packet_at(p, pitch, yaw, k)).distance.nanometers
            < distance.nanometers
}

/// The first snapshot at or past `distance`; `None` where the flight ends
/// short of it.  Nothing is interpolated between two snapshots.
pub open spec fn crossing_spec(p: Parameters, pitch: Angle, yaw: Angle, distance: Length) -> Option<
    Packet,
> {
    if exists|n: nat| crosses_at(p, pitch, yaw, distance, n) {
        Some(packet_at(p, pitch, yaw, choose|n: nat| crosses_at(p, pitch, yaw, distance, n)))
    } else {
        None
    }
}

/// Whether a snapshot lies within the target's tolerance of the target,
/// both in height and to the side.
pub open spec fn on_target(pk: Packet, target: Target) -> bool {
    &&& abs_int(pk.elevation.nanometers - target.height.nanometers)
        <= target.tolerance.nanometers
    &&& abs_int(pk.windage.nanometers - target.offset.nanometers) <= target.tolerance.nanometers
}

/// A launch angle corrected for a miss: to first order the miss over the
/// distance is the angle by which the launch was off.
pub open spec fn corrected_spec(angle: Angle, at: Length, aim: Length, distance: Length) -> Angle {
    let miss = minus(at.nanometers as int, aim.nanometers as int);
    Angle {
        nanoradians: minus(
            angle.nanoradians as int,
            scale(miss as int, NANO as int, distance.nanometers as int) as int,
        ),
    }
}

/// Zeroing from the launch angles `pitch` and `yaw` with `remaining`
/// trajectories left to run: run one; where it is on target, its angles are
/// the answer; else correct both angles by their misses and go on.
pub open spec fn zero_from(
    p: Parameters,
    target: Target,
    pitch: Angle,
    yaw: Angle,
    remaining: nat,
) -> Result<(Angle, Angle), ZeroError>
    decreases remaining,
{
    if remaining == 0 {
        Err(ZeroError::DidNotConverge)
    } else {
        match crossing_spec(p, pitch, yaw, target.distance) {
            None => Err(ZeroError::TargetNotReached),
            Some(pk) => if on_target(pk, target) {
                Ok((pitch, yaw))
            } else {
                zero_from(
                    p,
                    target,
                    corrected_spec(pitch, pk.elevation, target.height, target.distance),
                    corrected_spec(yaw, pk.windage, target.offset, target.distance),
                    (remaining - 1) as nat,
                )
            },
        }
    }
}

/// The launch angles that zero a configuration on a target, found from
/// zero pitch and zero yaw.
pub open spec fn zero_spec(p: Parameters, target: Target) -> Result<(Angle, Angle), ZeroError> {
    if target.distance.nanometers <= 0 {
        Err(ZeroError::NonPositiveDistance)
    } else {
        zero_from(
            p,
            target,
            Angle { nanoradians: 0 },
            Angle { nanoradians: 0 },
            MAX_ZERO_ITERATIONS as nat,
        )
    }
}

/// At most one snapshot is the first at or past a distance.
pub proof fn lemma_crossing_unique(
    p: Parameters,
    pitch: Angle,
    yaw: Angle,
    distance: Length,
    n: nat,
    m: nat,
)
    requires
        crosses_at(p, pitch, yaw, distance, n),
        crosses_at(p, pitch, yaw, distance, m),
    ensures
        n == m,
{
    if n < m {
        assert(packet_at(p, pitch, yaw, n).distance.nanometers < distance.nanometers);
    } else if m < n {
        assert(packet_at(p, pitch, yaw, m).distance.nanometers < distance.nanometers);
    }
}

/// A flight that ends short of a distance has no snapshot at or past it.
pub proof fn lemma_short_flight_never_crosses(
    p: Parameters,
    pitch: Angle,
    yaw: Angle,
    distance: Length,
    n: nat,
    m: nat,
)
    requires
        stops_short_at(p, pitch, yaw, distance, n),
    ensures
        !crosses_at(p, pitch, yaw, distance, m),
{
    if crosses_at(p, pitch, yaw, distance, m) {
        if m < n {
            assert(packet_at(p, pitch, yaw, m).distance.nanometers < distance.nanometers);
        } else if m > n {
            assert(flying(p, state_at(p, pitch, yaw, n)));
        }
    }
}

/// Angles that zeroing returns put the projectile on target: the first
/// snapshot at or past the target's distance of the trajectory launched at
/// them lies within the tolerance of the target.
pub proof fn lemma_zero_is_on_target(
    p: Parameters,
    target: Target,
    pitch: Angle,
    yaw: Angle,
)
    requires
        zero_spec(p, target) == Ok::<(Angle, Angle), ZeroError>((pitch, yaw)),
    ensures
        crossing_spec(p, pitch, yaw, target.distance) matches Some(pk) && on_target(pk, target),
{
    lemma_zero_from_is_on_target(
        p,
        target,
        Angle { nanoradians: 0 },
        Angle { nanoradians: 0 },
        MAX_ZERO_ITERATIONS as nat,
        pitch,
        yaw,
    );
}

/// Angles that zeroing returns from any start put the projectile on target.
pub proof fn lemma_zero_from_is_on_target(
    p: Parameters,
    target: Target,
    from_pitch: Angle,
    from_yaw: Angle,
    remaining: nat,
    pitch: Angle,
    yaw: Angle,
)
    requires
        zero_from(p, target, from_pitch, from_yaw, remaining) == Ok::<(Angle, Angle), ZeroError>(
            (pitch, yaw),
        ),
    ensures
        crossing_spec(p, pitch, yaw, target.distance) matches Some(pk) && on_target(pk, target),
    decreases remaining,
{
    if remaining > 0 {
        match crossing_spec(p, from_pitch, from_yaw, target.distance) {
            None => {},
            Some(pk) => {
                if !on_target(pk, target) {
                    lemma_zero_from_is_on_target(
                        p,
                        target,
                        corrected_spec(from_pitch, pk.elevation, target.height, target.distance),
                        corrected_spec(from_yaw, pk.windage, target.offset, target.distance),
                        (remaining - 1) as nat,
                        pitch,
                        yaw,
                    );
                }
            },
        }
    }
}

/// Runs a trajectory up to its first snapshot at or past `distance`.
/// Returns `None` where the flight ends short of it.
#[verifier::rlimit(30)]
pub fn packet_at_distance(
    config: &SimulationConfig,
    pitch: Angle,
    yaw: Angle,
    distance: Length,
) -> (r: Option<Packet>)
    ensures
        r == crossing_spec(config@, pitch, yaw, distance),
{
    let mut trajectory = Trajectory::new(config, pitch, yaw);
    let ghost p = config@;
    loop
        invariant
            trajectory@.parameters == p,
            trajectory@.pitch == pitch,
            trajectory@.yaw == yaw,
            p == config@,
            forall|k: nat|
                k < trajectory@.steps ==> (#[trigger] packet_at(p, pitch, yaw, k)).distance.nanometers
                    < distance.nanometers,
        decreases
                i64::MAX - state_at(p, pitch, yaw, trajectory@.steps).time.nanoseconds,
    {
        let ghost n = trajectory@.steps;
        let current = trajectory.state();
        match trajectory.next() {
            None => {
                proof {
                    assert(stops_short_at(p, pitch, yaw, distance, n));
                    assert forall|m: nat| !crosses_at(p, pitch, yaw, distance, m) by {
                        lemma_short_flight_never_crosses(p, pitch, yaw, distance, n, m);
                    }
                }
                return None;
            },
            Some(pk) => {
                if pk.distance.nanometers >= distance.nanometers {
                    proof {
                        assert(crosses_at(p, pitch, yaw, distance, n));
                        let m = choose|m: nat| crosses_at(p, pitch, yaw, distance, m);
                        lemma_crossing_unique(p, pitch, yaw, distance, n, m);
                    }
                    return Some(pk);
                }
                proof {
                    lemma_time_advances(p, current);
                    assert(state_at(p, pitch, yaw, n + 1) == crate::integrator::step_spec(
                        p,
                        state_at(p, pitch, yaw, n),
                    ));
                }
            },
        }
    }
}

/// Whether a snapshot lies within the target's tolerance of the target.
pub fn is_on_target(pk: &Packet, target: &Target) -> (b: bool)
    ensures
        b == on_target(*pk, *target),
{
    let vertical: i128 = pk.elevation.nanometers as i128 - target.height.nanometers as i128;
    let horizontal: i128 = pk.windage.nanometers as i128 - target.offset.nanometers as i128;
    let tolerance: i128 = target.tolerance.nanometers as i128;
    -tolerance <= vertical && vertical <= tolerance && -tolerance <= horizontal && horizontal
        <= tolerance
}

/// Corrects a launch angle for a miss.
fn corrected(angle: Angle, at: Length, aim: Length, distance: Length) -> (r: Angle)
    requires
        distance.nanometers > 0,
    ensures
        r == corrected_spec(angle, at, aim, distance),
{
    let miss = sub_sat(at.nanometers, aim.nanometers);
    Angle {
        nanoradians: sub_sat(angle.nanoradians, mul_div_sat(miss, NANO, distance.nanometers)),
    }
}

/// Finds the launch pitch and yaw that put the projectile within the
/// target's tolerance of the target, at the first snapshot at or past the
/// target's distance.  Starts from zero pitch and yaw and corrects both by
/// their misses, trajectory after trajectory.  Fails where the target is
/// not in front of the muzzle, where a trajectory ends short of the target,
/// and where `MAX_ZERO_ITERATIONS` trajectories do not suffice.
#[verifier::rlimit(30)]
pub fn find_zero_angles(config: &SimulationConfig, target: &Target) -> (r: Result<
    (Angle, Angle),
    ZeroError,
>)
    ensures
        r == zero_spec(config@, *target),
        r matches Ok((pitch, yaw)) ==> (crossing_spec(config@, pitch, yaw, target.distance) matches Some(
            pk,
        ) && on_target(pk, *target)),
{
    if target.distance.nanometers <= 0 {
        return Err(ZeroError::NonPositiveDistance);
    }
    let mut pitch = Angle { nanoradians: 0 };
    let mut yaw = Angle { nanoradians: 0 };
    let mut remaining: u32 = MAX_ZERO_ITERATIONS;
    while remaining > 0
        invariant
            target.distance.nanometers > 0,
            zero_spec(config@, *target) == zero_from(
                config@,
                *target,
                pitch,
                yaw,
                remaining as nat,
            ),
        decreases remaining,
    {
        match packet_at_distance(config, pitch, yaw, target.distance) {
            None => {
                return Err(ZeroError::TargetNotReached);
            },
            Some(pk) => {
                if is_on_target(&pk, target) {
                    return Ok((pitch, yaw));
                }
                pitch = corrected(pitch, pk.elevation, target.height, target.distance);
                yaw = corrected(yaw, pk.windage, target.offset, target.distance);
                remaining = remaining - 1;
            },
        }
    }
    Err(ZeroError::DidNotConverge)
}

} // verus!
