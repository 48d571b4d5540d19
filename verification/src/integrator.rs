//! The state of the projectile and its advance by one step of time.

use vstd::prelude::*;
use crate::config::Parameters;
use crate::fixed::{add_sat, minus, mul_div_sat, neg_sat, negate, plus, scale, sub_sat, NANO};
use crate::force::{acceleration_spec, Environment};
use crate::trig::{cos, cos_spec, sin, sin_spec};
use crate::units::{Angle, Time};
use crate::vector::Vector3;

verus! {

/// Where the projectile is, how it moves, and for how long it has flown.
/// The origin is the sight; the axes are those of the line of sight.
#[derive(Clone, Copy, Debug, PartialEq, Eq, Structural)]
pub struct State {
    /// Position in nanometres.
    pub position: Vector3,
    /// Velocity in nanometres per second.
    pub velocity: Vector3,
    pub time: Time,
}

/// A vector turned about the line of sight by the cant of the sight.
pub open spec fn rolled_spec(u: Vector3, roll: Angle) -> Vector3 {
    let c = cos_spec(roll.nanoradians as int);
    let s = sin_spec(roll.nanoradians as int);
    Vector3 {
        x: u.x,
        y: minus(scale(u.y as int, c, NANO as int) as int, scale(u.z as int, s, NANO as int) as int),
        z: plus(scale(u.y as int, s, NANO as int) as int, scale(u.z as int, c, NANO as int) as int),
    }
}

/// The muzzle velocity along a bore that points `pitch` above and `yaw` to
/// the right of the line of sight.
pub open spec fn bore_velocity_spec(speed: i64, pitch: Angle, yaw: Angle) -> Vector3 {
    let level = scale(speed as int, cos_spec(pitch.nanoradians as int), NANO as int);
    Vector3 {
        x: scale(level as int, cos_spec(yaw.nanoradians as int), NANO as int),
        y: scale(speed as int, sin_spec(pitch.nanoradians as int), NANO as int),
        z: scale(level as int, sin_spec(yaw.nanoradians as int), NANO as int),
    }
}

/// The state at the muzzle for launch angles `pitch` and `yaw`, which add
/// to the pitch and yaw of the sight.  The muzzle lies below the sight by
/// the sight's height and to its left by the sight's offset; the cant of
/// the sight turns both the muzzle's place and the bore about the line of
/// sight.
pub open spec fn initial_state_spec(p: Parameters, pitch: Angle, yaw: Angle) -> State {
    let up = Angle { nanoradians: plus(p.scope.pitch.nanoradians as int, pitch.nanoradians as int) };
    let right = Angle { nanoradians: plus(p.scope.yaw.nanoradians as int, yaw.nanoradians as int) };
    let muzzle = Vector3 {
        x: 0,
        y: negate(p.scope.height.nanometers as int),
        z: negate(p.scope.offset.nanometers as int),
    };
    State {
        position: rolled_spec(muzzle, p.scope.roll),
        velocity: rolled_spec(
            bore_velocity_spec(p.projectile.velocity.nm_per_s, up, right),
            p.scope.roll,
        ),
        time: Time { nanoseconds: 0 },
    }
}

/// The state one step of `dt` later: the velocity gains the acceleration
/// times `dt`, then the position gains the new velocity times `dt`.
pub open spec fn advance_spec(p: Parameters, s: State, dt: Time) -> State {
    let a = acceleration_spec(p, s.velocity);
    let velocity = s.velocity.plus(a.scaled(dt.nanoseconds as int, NANO as int));
    State {
        position: s.position.plus(velocity.scaled(dt.nanoseconds as int, NANO as int)),
        velocity,
        time: Time { nanoseconds: plus(s.time.nanoseconds as int, dt.nanoseconds as int) },
    }
}

/// The state one step of the configured length later.
pub open spec fn step_spec(p: Parameters, s: State) -> State {
    advance_spec(p, s, p.time_step)
}

/// Turns a vector about the line of sight.
fn rolled(u: &Vector3, roll: Angle) -> (r: Vector3)
    ensures
        r == rolled_spec(*u, roll),
{
    let c = cos(roll);
    let s = sin(roll);
    Vector3 {
        x: u.x,
        y: sub_sat(mul_div_sat(u.y, c, NANO), mul_div_sat(u.z, s, NANO)),
        z: add_sat(mul_div_sat(u.y, s, NANO), mul_div_sat(u.z, c, NANO)),
    }
}

impl Environment {
    /// The state at the muzzle for the given launch angles.
    pub fn launch(&self, pitch: Angle, yaw: Angle) -> (s: State)
        ensures
            s == initial_state_spec(self@, pitch, yaw),
    {
        let p = self.parameters();
        let up = Angle { nanoradians: add_sat(p.scope.pitch.nanoradians, pitch.nanoradians) };
        let right = Angle { nanoradians: add_sat(p.scope.yaw.nanoradians, yaw.nanoradians) };
        let speed = p.projectile.velocity.nm_per_s;
        let level = mul_div_sat(speed, cos(up), NANO);
        let bore = Vector3 {
            x: mul_div_sat(level, cos(right), NANO),
            y: mul_div_sat(speed, sin(up), NANO),
            z: mul_div_sat(level, sin(right), NANO),
        };
        let muzzle = Vector3 {
            x: 0,
            y: neg_sat(p.scope.height.nanometers),
            z: neg_sat(p.scope.offset.nanometers),
        };
        State {
            position: rolled(&muzzle, p.scope.roll),
            velocity: rolled(&bore, p.scope.roll),
            time: Time { nanoseconds: 0 },
        }
    }

    /// Advances a state by one step of `dt`.
    pub fn advance(&self, state: &State, dt: Time) -> (next: State)
        ensures
            next == advance_spec(self@, *state, dt),
    {
        let a = self.acceleration(&state.velocity);
        let velocity = state.velocity.add(&a.scale(dt.nanoseconds, NANO));
        State {
            position: state.position.add(&velocity.scale(dt.nanoseconds, NANO)),
            velocity,
            time: Time { nanoseconds: add_sat(state.time.nanoseconds, dt.nanoseconds) },
        }
    }

    /// Advances a state by one step of the configured length.
    pub fn step(&self, state: &State) -> (next: State)
        ensures
            next == step_spec(self@, *state),
    {
        let dt = self.parameters().time_step;
        self.advance(state, dt)
    }
}

/// The net acceleration of the projectile in a state under a
/// configuration.
pub fn acceleration(state: &State, config: &crate::config::SimulationConfig) -> (a: Vector3)
    ensures
        a == acceleration_spec(config@, state.velocity),
{
    Environment::new(config).acceleration(&state.velocity)
}

/// Advances a state by one step of `dt` under a configuration.
pub fn step(state: &State, config: &crate::config::SimulationConfig, dt: Time) -> (next: State)
    ensures
        next == advance_spec(config@, *state, dt),
{
    Environment::new(config).advance(state, dt)
}

} // verus!
