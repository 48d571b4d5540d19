//! The forces on the projectile: drag against the air, gravity along the
//! local vertical, and the Coriolis force of the turning Earth.

use vstd::prelude::*;
use crate::atmosphere::{
    density_ratio_of, density_ratio_spec, speed_of_sound, speed_of_sound_spec,
};
use crate::config::{valid_parameters, Parameters, SimulationConfig};
use crate::curve::value_at;
use crate::fixed::{minus, mul_div_sat, neg_sat, negate, scale, sub_sat, MICRO, NANO, PICO};
use crate::trig::{cos, cos_spec, sin, sin_spec};
use crate::units::Numeric;
use crate::vector::Vector3;

verus! {

/// Density of the standard atmosphere times pi over eight, for a ballistic
/// coefficient of one pound per square inch: the drag per metre flown and
/// per unit of drag coefficient, in trillionths.
pub const DRAG_CONSTANT: i64 = 684_222_997;

/// Angular speed of the Earth in trillionths of a radian per second.
pub const EARTH_ROTATION: i64 = 72_921_159;

/// The drag per metre flown and per unit of drag coefficient for this
/// projectile, in trillionths: `DRAG_CONSTANT` over the ballistic
/// coefficient.
pub open spec fn bc_factor_spec(p: Parameters) -> i64 {
    scale(DRAG_CONSTANT as int, MICRO as int, p.projectile.bc.millionths as int)
}

/// The velocity of the air in the frame of the line of sight.
pub open spec fn wind_spec(p: Parameters) -> Vector3 {
    Vector3 {
        x: scale(
            p.wind.speed.nm_per_s as int,
            cos_spec(p.wind.direction.nanoradians as int),
            NANO as int,
        ),
        y: 0,
        z: scale(
            p.wind.speed.nm_per_s as int,
            sin_spec(p.wind.direction.nanoradians as int),
            NANO as int,
        ),
    }
}

/// The acceleration of gravity in the frame of the line of sight: down the
/// local vertical, which an inclined line of sight sees partly along itself.
/// Zero where gravity is switched off.
pub open spec fn gravity_spec(p: Parameters) -> Vector3 {
    if p.use_gravity {
        Vector3 {
            x: negate(
                scale(
                    p.shooter.gravity.nm_per_s2 as int,
                    sin_spec(p.shooter.incline.nanoradians as int),
                    NANO as int,
                ) as int,
            ),
            y: negate(
                scale(
                    p.shooter.gravity.nm_per_s2 as int,
                    cos_spec(p.shooter.incline.nanoradians as int),
                    NANO as int,
                ) as int,
            ),
            z: 0,
        }
    } else {
        Vector3::zero_spec()
    }
}

/// The angular velocity of the Earth in the local frame, in trillionths of
/// a radian per second, from the latitude and the bearing of the line of
/// sight.  Zero where the Coriolis force is switched off.
pub open spec fn rotation_spec(p: Parameters) -> Vector3 {
    if p.use_coriolis {
        let level = scale(
            EARTH_ROTATION as int,
            cos_spec(p.shooter.latitude.nanoradians as int),
            NANO as int,
        );
        Vector3 {
            x: scale(level as int, cos_spec(p.shooter.bearing.nanoradians as int), NANO as int),
            y: scale(
                EARTH_ROTATION as int,
                sin_spec(p.shooter.latitude.nanoradians as int),
                NANO as int,
            ),
            z: negate(
                scale(level as int, sin_spec(p.shooter.bearing.nanoradians as int), NANO as int) as int,
            ),
        }
    } else {
        Vector3::zero_spec()
    }
}

/// The velocity of the projectile against the air.
pub open spec fn relative_spec(p: Parameters, velocity: Vector3) -> Vector3 {
    velocity.minus(wind_spec(p))
}

/// The Mach number of the projectile, in millionths: its speed against the
/// air over the speed of sound.
pub open spec fn mach_spec(p: Parameters, velocity: Vector3) -> i64 {
    scale(
        relative_spec(p, velocity).norm() as int,
        MICRO as int,
        speed_of_sound_spec(p.atmosphere) as int,
    )
}

/// The rate of drag in billionths per second: the deceleration by drag per
/// unit of velocity against the air.  It is the density ratio times the drag
/// coefficient at the Mach number times the ballistic coefficient factor
/// times the speed against the air.
pub open spec fn drag_rate_spec(p: Parameters, velocity: Vector3) -> i64 {
    let cd = value_at(p.projectile.drag_table.breakpoints(), mach_spec(p, velocity) as int);
    let weighted = scale(density_ratio_spec(p.atmosphere) as int, cd, MICRO as int);
    let per_meter = scale(weighted as int, bc_factor_spec(p) as int, NANO as int);
    scale(per_meter as int, relative_spec(p, velocity).norm() as int, PICO as int)
}

/// The acceleration by drag: the rate of drag times the velocity against
/// the air, opposite to it.  Zero where drag is switched off.
pub open spec fn drag_spec(p: Parameters, velocity: Vector3) -> Vector3 {
    if p.use_drag {
        let relative = relative_spec(p, velocity);
        let rate = drag_rate_spec(p, velocity);
        Vector3 {
            x: negate(scale(rate as int, relative.x as int, NANO as int) as int),
            y: negate(scale(rate as int, relative.y as int, NANO as int) as int),
            z: negate(scale(rate as int, relative.z as int, NANO as int) as int),
        }
    } else {
        Vector3::zero_spec()
    }
}

/// Twice the product of one component of the rotation, in trillionths of a
/// radian per second, and one of the velocity.
pub open spec fn turn(rotation: i64, velocity: i64) -> i64 {
    scale(scale(rotation as int, velocity as int, PICO as int) as int, 2, 1)
}

/// The Coriolis acceleration: minus twice the cross product of the Earth's
/// angular velocity and the velocity.
pub open spec fn coriolis_spec(p: Parameters, velocity: Vector3) -> Vector3 {
    let w = rotation_spec(p);
    Vector3 {
        x: minus(turn(w.z, velocity.y) as int, turn(w.y, velocity.z) as int),
        y: minus(turn(w.x, velocity.z) as int, turn(w.z, velocity.x) as int),
        z: minus(turn(w.y, velocity.x) as int, turn(w.x, velocity.y) as int),
    }
}

/// The net acceleration of the projectile: drag, plus gravity, plus the
/// Coriolis acceleration.
pub open spec fn acceleration_spec(p: Parameters, velocity: Vector3) -> Vector3 {
    drag_spec(p, velocity).plus(gravity_spec(p)).plus(coriolis_spec(p, velocity))
}

/// A configuration with everything worked out that does not change during
/// the flight.
pub struct Environment {
    parameters: Parameters,
    density_ratio: i64,
    sound_speed: i64,
    bc_factor: i64,
    gravity: Vector3,
    rotation: Vector3,
    wind: Vector3,
}

impl View for Environment {
    type V = Parameters;

    closed spec fn view(&self) -> Parameters {
        self.parameters
    }
}

impl Environment {
    #[verifier::type_invariant]
    spec fn well_formed(self) -> bool {
        &&& valid_parameters(self.parameters)
        &&& self.density_ratio == density_ratio_spec(self.parameters.atmosphere)
        &&& self.sound_speed == speed_of_sound_spec(self.parameters.atmosphere)
        &&& self.sound_speed > 0
        &&& self.bc_factor == bc_factor_spec(self.parameters)
        &&& self.gravity == gravity_spec(self.parameters)
        &&& self.rotation == rotation_spec(self.parameters)
        &&& self.wind == wind_spec(self.parameters)
    }

    /// Works out the environment of a configuration.
    pub fn new(config: &SimulationConfig) -> (e: Environment)
        ensures
            e@ == config@,
            valid_parameters(e@),
    {
        let p = config.parameters();
        let wind = Vector3 {
            x: mul_div_sat(p.wind.speed.nm_per_s, cos(p.wind.direction), NANO),
            y: 0,
            z: mul_div_sat(p.wind.speed.nm_per_s, sin(p.wind.direction), NANO),
        };
        let gravity = if p.use_gravity {
            Vector3 {
                x: neg_sat(mul_div_sat(p.shooter.gravity.nm_per_s2, sin(p.shooter.incline), NANO)),
                y: neg_sat(mul_div_sat(p.shooter.gravity.nm_per_s2, cos(p.shooter.incline), NANO)),
                z: 0,
            }
        } else {
            Vector3::zero()
        };
        let rotation = if p.use_coriolis {
            let level = mul_div_sat(EARTH_ROTATION, cos(p.shooter.latitude), NANO);
            Vector3 {
                x: mul_div_sat(level, cos(p.shooter.bearing), NANO),
                y: mul_div_sat(EARTH_ROTATION, sin(p.shooter.latitude), NANO),
                z: neg_sat(mul_div_sat(level, sin(p.shooter.bearing), NANO)),
            }
        } else {
            Vector3::zero()
        };
        Environment {
            parameters: p,
            density_ratio: density_ratio_of(&p.atmosphere),
            sound_speed: speed_of_sound(&p.atmosphere).nm_per_s,
            bc_factor: mul_div_sat(DRAG_CONSTANT, MICRO, p.projectile.bc.millionths),
            gravity,
            rotation,
            wind,
        }
    }

    /// The parameters of this environment.
    pub fn parameters(&self) -> (p: Parameters)
        ensures
            p == self@,
            valid_parameters(p),
    {
        proof {
            use_type_invariant(self);
        }
        self.parameters
    }

    /// The Mach number of a projectile of the given velocity.
    pub fn mach(&self, velocity: &Vector3) -> (m: Numeric)
        ensures
            m.millionths == mach_spec(self@, *velocity),
    {
        proof {
            use_type_invariant(self);
        }
        let speed = velocity.sub(&self.wind).length();
        Numeric { millionths: mul_div_sat(speed, MICRO, self.sound_speed) }
    }

    /// The rate of drag on a projectile of the given velocity, in
    /// billionths per second.
    pub fn drag_rate(&self, velocity: &Vector3) -> (rate: i64)
        ensures
            rate == drag_rate_spec(self@, *velocity),
    {
        proof {
            use_type_invariant(self);
        }
        let speed = velocity.sub(&self.wind).length();
        let cd = self.parameters.projectile.drag_table.coefficient(self.mach(velocity));
        let weighted = mul_div_sat(self.density_ratio, cd.millionths, MICRO);
        let per_meter = mul_div_sat(weighted, self.bc_factor, NANO);
        mul_div_sat(per_meter, speed, PICO)
    }

    /// The acceleration by drag alone.
    pub fn drag(&self, velocity: &Vector3) -> (a: Vector3)
        ensures
            a == drag_spec(self@, *velocity),
    {
        proof {
            use_type_invariant(self);
        }
        if self.parameters.use_drag {
            let relative = velocity.sub(&self.wind);
            let rate = self.drag_rate(velocity);
            Vector3 {
                x: neg_sat(mul_div_sat(rate, relative.x, NANO)),
                y: neg_sat(mul_div_sat(rate, relative.y, NANO)),
                z: neg_sat(mul_div_sat(rate, relative.z, NANO)),
            }
        } else {
            Vector3::zero()
        }
    }

    /// The Coriolis acceleration alone.
    pub fn coriolis(&self, velocity: &Vector3) -> (a: Vector3)
        ensures
            a == coriolis_spec(self@, *velocity),
    {
        proof {
            use_type_invariant(self);
        }
        let w = &self.rotation;
        Vector3 {
            x: sub_sat(twice(w.z, velocity.y), twice(w.y, velocity.z)),
            y: sub_sat(twice(w.x, velocity.z), twice(w.z, velocity.x)),
            z: sub_sat(twice(w.y, velocity.x), twice(w.x, velocity.y)),
        }
    }

    /// The net acceleration of a projectile of the given velocity.
    pub fn acceleration(&self, velocity: &Vector3) -> (a: Vector3)
        ensures
            a == acceleration_spec(self@, *velocity),
    {
        proof {
            use_type_invariant(self);
        }
        self.drag(velocity).add(&self.gravity).add(&self.coriolis(velocity))
    }
}

/// Twice the product of one component of the rotation and one of the
/// velocity.
fn twice(rotation: i64, velocity: i64) -> (r: i64)
    ensures
        r == turn(rotation, velocity),
{
    mul_div_sat(mul_div_sat(rotation, velocity, PICO), 2, 1)
}

} // verus!
