//! What holds of every flight.

use vstd::prelude::*;
use crate::config::{standard_parameters, valid_parameters, Parameters};
use crate::curve::CURVE_LIMIT;
use crate::fixed::{
    abs_int, isqrt_spec, lemma_isqrt_monotone, lemma_isqrt_of_square, lemma_saturate_bounds,
    lemma_scale_monotone, lemma_scale_one, lemma_scale_sign, lemma_scale_within, lemma_scale_zero,
    lemma_trunc_div_bounds, mul_div_int, negate, plus, scale, MICRO, NANO, PICO,
};
use crate::atmosphere::density_ratio_spec;
use crate::curve::{lemma_value_at_in_range, value_at};
use crate::force::{
    acceleration_spec, bc_factor_spec, coriolis_spec, drag_rate_spec, drag_spec, gravity_spec,
    mach_spec, relative_spec, rotation_spec, turn, wind_spec, DRAG_CONSTANT, EARTH_ROTATION,
};
use crate::trig::{cos_spec, sin_spec};
use crate::integrator::{initial_state_spec, step_spec, State};
use crate::trajectory::{packet_at, state_at};
use crate::units::Velocity;
use crate::trig::lemma_trig_at_zero;
use crate::units::Angle;
use crate::vector::Vector3;

verus! {

/// Nothing pushes the projectile sideways: the air is at rest, the Coriolis
/// force is switched off, the bore points neither left nor right, and the
/// sight sits upright and straight above the bore.
pub open spec fn no_lateral_forces(p: Parameters, yaw: Angle) -> bool {
    &&& p.wind.speed.nm_per_s == 0
    &&& !p.use_coriolis
    &&& plus(p.scope.yaw.nanoradians as int, yaw.nanoradians as int) == 0
    &&& p.scope.offset.nanometers == 0
    &&& p.scope.roll.nanoradians == 0
}

/// Nothing feeds the projectile energy: drag acts, in air at rest, and
/// gravity and the Coriolis force are switched off.
pub open spec fn drag_alone(p: Parameters) -> bool {
    &&& p.use_drag
    &&& !p.use_gravity
    &&& !p.use_coriolis
    &&& p.wind.speed.nm_per_s == 0
}

/// The step is short enough for the drag at a velocity: over one step the
/// drag takes away no more than twice the velocity.
pub open spec fn stable_step(p: Parameters, velocity: Vector3) -> bool {
    0 <= drag_rate_spec(p, velocity) * p.time_step.nanoseconds <= 2 * NANO * NANO
}

/// Air at rest has no velocity.
pub proof fn lemma_still_air(p: Parameters)
    requires
        p.wind.speed.nm_per_s == 0,
    ensures
        wind_spec(p) == Vector3::zero_spec(),
        forall|v: Vector3| #[trigger] relative_spec(p, v) == v,
{
    lemma_scale_zero(crate::trig::cos_spec(p.wind.direction.nanoradians as int), NANO as int);
    lemma_scale_zero(crate::trig::sin_spec(p.wind.direction.nanoradians as int), NANO as int);
}

/// With the Coriolis force switched off there is no Coriolis acceleration.
pub proof fn lemma_no_coriolis(p: Parameters, velocity: Vector3)
    requires
        !p.use_coriolis,
    ensures
        coriolis_spec(p, velocity) == Vector3::zero_spec(),
{
    lemma_scale_zero(velocity.x as int, PICO as int);
    lemma_scale_zero(velocity.y as int, PICO as int);
    lemma_scale_zero(velocity.z as int, PICO as int);
    lemma_scale_zero(2, 1);
    assert(turn(0, velocity.x) == 0);
    assert(turn(0, velocity.y) == 0);
    assert(turn(0, velocity.z) == 0);
}

/// Without lateral forces, a projectile in the vertical plane through the
/// line of sight stays in it for one more step.
pub proof fn lemma_step_keeps_plane(p: Parameters, s: State)
    requires
        p.wind.speed.nm_per_s == 0,
        !p.use_coriolis,
        s.position.z == 0,
        s.velocity.z == 0,
    ensures
        step_spec(p, s).position.z == 0,
        step_spec(p, s).velocity.z == 0,
{
    lemma_still_air(p);
    lemma_no_coriolis(p, s.velocity);
    assert(relative_spec(p, s.velocity) == s.velocity);
    lemma_scale_zero(drag_rate_spec(p, s.velocity) as int, NANO as int);
    assert(drag_spec(p, s.velocity).z == 0);
    assert(gravity_spec(p).z == 0);
    assert(acceleration_spec(p, s.velocity).z == 0);
    lemma_scale_zero(p.time_step.nanoseconds as int, NANO as int);
}

/// Without lateral forces the windage is zero at every snapshot.
#[verifier::rlimit(30)]
pub proof fn lemma_no_windage(p: Parameters, pitch: Angle, yaw: Angle, n: nat)
    requires
        no_lateral_forces(p, yaw),
    ensures
        state_at(p, pitch, yaw, n).position.z == 0,
        state_at(p, pitch, yaw, n).velocity.z == 0,
        packet_at(p, pitch, yaw, n).windage.nanometers == 0,
    decreases n,
{
    if n == 0 {
        lemma_trig_at_zero();
        let s = initial_state_spec(p, pitch, yaw);
        let up = Angle {
            nanoradians: plus(p.scope.pitch.nanoradians as int, pitch.nanoradians as int),
        };
        let level = scale(
            p.projectile.velocity.nm_per_s as int,
            crate::trig::cos_spec(up.nanoradians as int),
            NANO as int,
        );
        let rise = scale(
            p.projectile.velocity.nm_per_s as int,
            crate::trig::sin_spec(up.nanoradians as int),
            NANO as int,
        );
        lemma_scale_zero(level as int, NANO as int);
        lemma_scale_zero(rise as int, NANO as int);
        lemma_scale_zero(negate(p.scope.height.nanometers as int) as int, NANO as int);
        lemma_scale_one(0, NANO as int);
        assert(s.velocity.z == 0);
        assert(s.position.z == 0);
    } else {
        lemma_no_windage(p, pitch, yaw, (n - 1) as nat);
        lemma_step_keeps_plane(p, state_at(p, pitch, yaw, (n - 1) as nat));
    }
}

/// In air of a density that is not negative the rate of drag is not
/// negative either.
pub proof fn lemma_drag_rate_non_negative(p: Parameters, velocity: Vector3)
    requires
        valid_parameters(p),
        density_ratio_spec(p.atmosphere) >= 0,
    ensures
        drag_rate_spec(p, velocity) >= 0,
{
    let points = p.projectile.drag_table.breakpoints();
    p.projectile.drag_table.lemma_well_formed();
    let cd = value_at(points, mach_spec(p, velocity) as int);
    lemma_value_at_in_range(points, mach_spec(p, velocity) as int);
    let weighted = scale(density_ratio_spec(p.atmosphere) as int, cd, MICRO as int);
    lemma_scale_sign(density_ratio_spec(p.atmosphere) as int, cd, MICRO as int);
    lemma_scale_sign(DRAG_CONSTANT as int, MICRO as int, p.projectile.bc.millionths as int);
    let per_meter = scale(weighted as int, bc_factor_spec(p) as int, NANO as int);
    lemma_scale_sign(weighted as int, bc_factor_spec(p) as int, NANO as int);
    let speed = relative_spec(p, velocity).norm();
    lemma_norm_non_negative(relative_spec(p, velocity));
    lemma_scale_sign(per_meter as int, speed as int, PICO as int);
}

/// Drag opposes the motion against the air: where its rate is not
/// negative, no component of the acceleration by drag has the sign of that
/// component of the velocity against the air.
pub proof fn lemma_drag_opposes_motion(p: Parameters, velocity: Vector3)
    requires
        drag_rate_spec(p, velocity) >= 0,
    ensures
        ({
            let against = relative_spec(p, velocity);
            let drag = drag_spec(p, velocity);
            &&& against.x >= 0 ==> drag.x <= 0
            &&& against.x <= 0 ==> drag.x >= 0
            &&& against.y >= 0 ==> drag.y <= 0
            &&& against.y <= 0 ==> drag.y >= 0
            &&& against.z >= 0 ==> drag.z <= 0
            &&& against.z <= 0 ==> drag.z >= 0
        }),
{
    let against = relative_spec(p, velocity);
    let rate = drag_rate_spec(p, velocity) as int;
    lemma_scale_sign(against.x as int, rate, NANO as int);
    lemma_scale_sign(against.y as int, rate, NANO as int);
    lemma_scale_sign(against.z as int, rate, NANO as int);
    assert(rate * against.x == against.x * rate) by (nonlinear_arith);
    assert(rate * against.y == against.y * rate) by (nonlinear_arith);
    assert(rate * against.z == against.z * rate) by (nonlinear_arith);
}

/// One component of a velocity under drag alone: the step moves it toward
/// zero and never past its mirror image.
#[verifier::rlimit(30)]
pub proof fn lemma_component_decays(rate: i64, v: i64, dt: i64)
    requires
        dt > 0,
        0 <= rate * dt <= 2 * NANO * NANO,
    ensures
        ({
            let a = negate(scale(rate as int, v as int, NANO as int) as int);
            let dv = scale(a as int, dt as int, NANO as int);
            &&& abs_int(plus(v as int, dv as int) as int) <= abs_int(v as int)
            &&& plus(v as int, dv as int) == v + dv
        }),
{
    let n = NANO as int;
    let m = abs_int(v as int);
    assert(rate >= 0) by (nonlinear_arith)
        requires
            dt > 0,
            rate * dt >= 0,
    ;
    let exact = mul_div_int(rate as int, v as int, n);
    assert(abs_int(rate * v) == rate * m && (v >= 0 ==> rate * v >= 0) && (v <= 0 ==> rate * v
        <= 0)) by (nonlinear_arith)
        requires
            rate >= 0,
            m == abs_int(v as int),
    ;
    lemma_trunc_div_bounds(rate * v, n);
    assert(abs_int(exact) * n <= rate * m) by (nonlinear_arith)
        requires
            abs_int(exact) == (rate * m) / n,
            n > 0,
            rate * m >= 0,
    ;
    lemma_saturate_bounds(exact);
    let q = scale(rate as int, v as int, n);
    lemma_saturate_bounds(-(q as int));
    let a = negate(q as int);
    let k = abs_int(a as int);
    assert(k <= abs_int(exact));
    let moved = mul_div_int(a as int, dt as int, n);
    assert(abs_int(a * dt) == k * dt && (a >= 0 ==> a * dt >= 0) && (a <= 0 ==> a * dt <= 0))
        by (nonlinear_arith)
        requires
            dt > 0,
            k == abs_int(a as int),
    ;
    lemma_trunc_div_bounds(a * dt, n);
    assert((k * dt) / n <= 2 * m) by (nonlinear_arith)
        requires
            k * n <= rate * m,
            0 <= rate * dt <= 2 * n * n,
            n > 0,
            k >= 0,
            m >= 0,
            dt > 0,
            rate >= 0,
    ;
    lemma_saturate_bounds(moved);
}

/// Under drag alone one stable step never raises the speed.
#[verifier::rlimit(30)]
pub proof fn lemma_speed_decays(p: Parameters, s: State)
    requires
        valid_parameters(p),
        drag_alone(p),
        stable_step(p, s.velocity),
    ensures
        step_spec(p, s).velocity.norm() <= s.velocity.norm(),
        abs_int(step_spec(p, s).velocity.x as int) <= abs_int(s.velocity.x as int),
        abs_int(step_spec(p, s).velocity.y as int) <= abs_int(s.velocity.y as int),
        abs_int(step_spec(p, s).velocity.z as int) <= abs_int(s.velocity.z as int),
{
    let v = s.velocity;
    let rate = drag_rate_spec(p, v);
    let dt = p.time_step.nanoseconds;
    lemma_still_air(p);
    lemma_no_coriolis(p, v);
    assert(relative_spec(p, v) == v);
    assert(rotation_spec(p) == Vector3::zero_spec());
    assert(gravity_spec(p) == Vector3::zero_spec());
    assert(acceleration_spec(p, v) == drag_spec(p, v));
    lemma_component_decays(rate, v.x, dt);
    lemma_component_decays(rate, v.y, dt);
    lemma_component_decays(rate, v.z, dt);
    let w = step_spec(p, s).velocity;
    assert(w.x * w.x <= v.x * v.x) by (nonlinear_arith)
        requires
            abs_int(w.x as int) <= abs_int(v.x as int),
    ;
    assert(w.y * w.y <= v.y * v.y) by (nonlinear_arith)
        requires
            abs_int(w.y as int) <= abs_int(v.y as int),
    ;
    assert(w.z * w.z <= v.z * v.z) by (nonlinear_arith)
        requires
            abs_int(w.z as int) <= abs_int(v.z as int),
    ;
    assert(0 <= w.x * w.x && 0 <= w.y * w.y && 0 <= w.z * w.z) by (nonlinear_arith);
    lemma_isqrt_monotone(w.norm_squared(), v.norm_squared());
}

/// The most that the rate of drag can be at a speed against the air: the
/// rate for the largest drag coefficient that a curve may hold.
pub open spec fn drag_rate_limit(p: Parameters, speed: i64) -> i64 {
    let weighted = scale(density_ratio_spec(p.atmosphere) as int, CURVE_LIMIT as int, MICRO as int);
    let per_meter = scale(weighted as int, bc_factor_spec(p) as int, NANO as int);
    scale(per_meter as int, speed as int, PICO as int)
}

/// The step is short enough for every drag up to a speed: the air has a
/// density that is not negative, and over one step the drag at that speed
/// takes away no more than twice the velocity, whatever the drag
/// coefficient.
pub open spec fn steady_up_to(p: Parameters, speed: Velocity) -> bool {
    &&& density_ratio_spec(p.atmosphere) >= 0
    &&& drag_rate_limit(p, speed.nm_per_s) * p.time_step.nanoseconds <= 2 * NANO * NANO
}

/// The rate of drag stays within its limit, and the limit grows with the
/// speed.
#[verifier::rlimit(30)]
pub proof fn lemma_drag_rate_limited(p: Parameters, velocity: Vector3, speed: i64)
    requires
        valid_parameters(p),
        density_ratio_spec(p.atmosphere) >= 0,
        relative_spec(p, velocity).norm() <= speed,
    ensures
        0 <= drag_rate_spec(p, velocity) <= drag_rate_limit(p, speed),
{
    lemma_drag_rate_non_negative(p, velocity);
    let ratio = density_ratio_spec(p.atmosphere) as int;
    let points = p.projectile.drag_table.breakpoints();
    p.projectile.drag_table.lemma_well_formed();
    let cd = value_at(points, mach_spec(p, velocity) as int);
    lemma_value_at_in_range(points, mach_spec(p, velocity) as int);
    // the density-weighted coefficient is monotone in the coefficient
    assert(scale(ratio, cd, MICRO as int) <= scale(ratio, CURVE_LIMIT as int, MICRO as int)) by {
        assert(ratio * cd <= ratio * CURVE_LIMIT) by (nonlinear_arith)
            requires
                ratio >= 0,
                cd <= CURVE_LIMIT,
        ;
        crate::fixed::lemma_trunc_div_monotone(ratio * cd, ratio * CURVE_LIMIT, MICRO as int);
    }
    let weighted = scale(ratio, cd, MICRO as int) as int;
    let heaviest = scale(ratio, CURVE_LIMIT as int, MICRO as int) as int;
    lemma_scale_sign(DRAG_CONSTANT as int, MICRO as int, p.projectile.bc.millionths as int);
    lemma_scale_monotone(weighted, heaviest, bc_factor_spec(p) as int, NANO as int);
    let per_meter = scale(weighted, bc_factor_spec(p) as int, NANO as int) as int;
    let most = scale(heaviest, bc_factor_spec(p) as int, NANO as int) as int;
    lemma_scale_sign(ratio, CURVE_LIMIT as int, MICRO as int);
    lemma_scale_sign(heaviest, bc_factor_spec(p) as int, NANO as int);
    let against = relative_spec(p, velocity).norm() as int;
    assert(against >= 0) by {
        lemma_norm_non_negative(relative_spec(p, velocity));
    }
    lemma_scale_monotone(per_meter, most, against, PICO as int);
    assert(scale(most, against, PICO as int) <= scale(most, speed as int, PICO as int)) by {
        assert(most * against <= most * speed) by (nonlinear_arith)
            requires
                most >= 0,
                against <= speed,
        ;
        crate::fixed::lemma_trunc_div_monotone(most * against, most * speed, PICO as int);
    }
}

/// The length of a vector is not negative.
pub proof fn lemma_norm_non_negative(v: Vector3)
    ensures
        v.norm() >= 0,
{
    let n = v.norm_squared();
    assert(n >= 0) by (nonlinear_arith)
        requires
            n == v.x * v.x + v.y * v.y + v.z * v.z,
    ;
    crate::fixed::lemma_isqrt_exists(n);
}

/// Under drag alone, with a step short enough for the speed at the muzzle,
/// the speed never rises from one snapshot to the next, and so never
/// exceeds the speed at the muzzle.
#[verifier::rlimit(30)]
pub proof fn lemma_speed_decays_along_flight(p: Parameters, pitch: Angle, yaw: Angle, n: nat)
    requires
        valid_parameters(p),
        drag_alone(p),
        steady_up_to(p, packet_at(p, pitch, yaw, 0).velocity),
    ensures
        packet_at(p, pitch, yaw, n + 1).velocity.nm_per_s <= packet_at(
            p,
            pitch,
            yaw,
            n,
        ).velocity.nm_per_s,
        packet_at(p, pitch, yaw, n).velocity.nm_per_s <= packet_at(
            p,
            pitch,
            yaw,
            0,
        ).velocity.nm_per_s,
    decreases n,
{
    let first = packet_at(p, pitch, yaw, 0).velocity.nm_per_s;
    if n > 0 {
        lemma_speed_decays_along_flight(p, pitch, yaw, (n - 1) as nat);
    }
    let s = state_at(p, pitch, yaw, n);
    lemma_still_air(p);
    assert(relative_spec(p, s.velocity) == s.velocity);
    lemma_drag_rate_limited(p, s.velocity, first);
    let rate = drag_rate_spec(p, s.velocity) as int;
    let limit = drag_rate_limit(p, first) as int;
    let dt = p.time_step.nanoseconds as int;
    assert(0 <= rate * dt <= limit * dt) by (nonlinear_arith)
        requires
            0 <= rate <= limit,
            dt > 0,
    ;
    lemma_speed_decays(p, s);
    assert(state_at(p, pitch, yaw, n + 1) == step_spec(p, s));
}

/// The largest component of a velocity for which a step is shown to be
/// exact: three kilometres per second.
pub const EXACT_VELOCITY: i64 = 3_000_000_000_000;

/// The largest component of a position and the longest time of flight for
/// which a step is shown to be exact.
pub const EXACT_RANGE: i64 = 1_000_000_000_000_000_000;

/// Parameters of moderate size: air of at most twice the standard density,
/// a ballistic coefficient of at least a tenth, a wind of at most one
/// kilometre per second, a gravity of at most a hundred metres per second
/// squared, and a time step of at most one second.
pub open spec fn moderate(p: Parameters) -> bool {
    &&& 0 <= density_ratio_spec(p.atmosphere) <= 2 * NANO
    &&& p.projectile.bc.millionths >= 100_000
    &&& abs_int(p.wind.speed.nm_per_s as int) <= 1_000_000_000_000
    &&& abs_int(p.shooter.gravity.nm_per_s2 as int) <= 100_000_000_000
    &&& p.time_step.nanoseconds <= NANO
}

/// A state of moderate size.
pub open spec fn moderate_state(s: State) -> bool {
    &&& moderate_velocity(s.velocity)
    &&& abs_int(s.position.x as int) <= EXACT_RANGE
    &&& abs_int(s.position.y as int) <= EXACT_RANGE
    &&& abs_int(s.position.z as int) <= EXACT_RANGE
    &&& 0 <= s.time.nanoseconds <= EXACT_RANGE
}

/// The standard parameters are valid and of moderate size.
pub proof fn lemma_standard_is_moderate()
    ensures
        valid_parameters(standard_parameters()),
        moderate(standard_parameters()),
        density_ratio_spec(standard_parameters().atmosphere) == 999_958_134,
{
    let a = standard_parameters().atmosphere;
    let saturation = value_at(crate::tables::VAPOR_TABLE@, a.temperature.millikelvin as int);
    lemma_scale_zero(saturation, MICRO as int);
    lemma_scale_zero(crate::atmosphere::VAPOR_DEFICIT as int, MICRO as int);
    lemma_scale_one(a.pressure.millipascals, crate::atmosphere::STANDARD_TEMPERATURE as int);
}

/// Sine and cosine lie in the unit interval.
pub proof fn lemma_trig_bounded(x: int)
    ensures
        abs_int(sin_spec(x)) <= NANO,
        abs_int(cos_spec(x)) <= NANO,
{
}

/// The wind, the gravity and the rotation of parameters of moderate size
/// are of moderate size.
#[verifier::rlimit(30)]
pub proof fn lemma_moderate_environment(p: Parameters)
    requires
        valid_parameters(p),
        moderate(p),
    ensures
        ({
            let w = wind_spec(p);
            let g = gravity_spec(p);
            let r = rotation_spec(p);
            &&& abs_int(w.x as int) <= 1_000_000_000_000
            &&& w.y == 0
            &&& abs_int(w.z as int) <= 1_000_000_000_000
            &&& abs_int(g.x as int) <= 100_000_000_000
            &&& abs_int(g.y as int) <= 100_000_000_000
            &&& g.z == 0
            &&& abs_int(r.x as int) <= EARTH_ROTATION
            &&& abs_int(r.y as int) <= EARTH_ROTATION
            &&& abs_int(r.z as int) <= EARTH_ROTATION
            &&& 0 <= bc_factor_spec(p) <= 6_842_229_970
        }),
{
    let n = NANO as int;
    lemma_trig_bounded(p.wind.direction.nanoradians as int);
    lemma_trig_bounded(p.shooter.incline.nanoradians as int);
    lemma_trig_bounded(p.shooter.latitude.nanoradians as int);
    lemma_trig_bounded(p.shooter.bearing.nanoradians as int);
    let speed = p.wind.speed.nm_per_s as int;
    lemma_scale_within(speed, cos_spec(p.wind.direction.nanoradians as int), n, 1_000_000_000_000, n);
    lemma_scale_within(speed, sin_spec(p.wind.direction.nanoradians as int), n, 1_000_000_000_000, n);
    let g = p.shooter.gravity.nm_per_s2 as int;
    lemma_scale_within(g, sin_spec(p.shooter.incline.nanoradians as int), n, 100_000_000_000, n);
    lemma_scale_within(g, cos_spec(p.shooter.incline.nanoradians as int), n, 100_000_000_000, n);
    let turn = EARTH_ROTATION as int;
    lemma_scale_within(turn, cos_spec(p.shooter.latitude.nanoradians as int), n, turn, n);
    lemma_scale_within(turn, sin_spec(p.shooter.latitude.nanoradians as int), n, turn, n);
    let level = scale(turn, cos_spec(p.shooter.latitude.nanoradians as int), n) as int;
    lemma_scale_within(level, cos_spec(p.shooter.bearing.nanoradians as int), n, turn, n);
    lemma_scale_within(level, sin_spec(p.shooter.bearing.nanoradians as int), n, turn, n);
    let bc = p.projectile.bc.millionths as int;
    lemma_scale_sign(DRAG_CONSTANT as int, MICRO as int, bc);
    assert(mul_div_int(DRAG_CONSTANT as int, MICRO as int, bc) <= 6_842_229_970) by {
        assert((DRAG_CONSTANT * MICRO) / bc <= 6_842_229_970) by (nonlinear_arith)
            requires
                bc >= 100_000,
                DRAG_CONSTANT * MICRO == 684_222_997_000_000,
        ;
    }
}

/// The length of a vector whose components are at most four kilometres per
/// second is the exact root of its sum of squares, and at most seven
/// kilometres per second.
pub proof fn lemma_moderate_speed(v: Vector3)
    requires
        abs_int(v.x as int) <= 4_000_000_000_000,
        abs_int(v.y as int) <= 4_000_000_000_000,
        abs_int(v.z as int) <= 4_000_000_000_000,
    ensures
        v.norm() == isqrt_spec(v.norm_squared()),
        0 <= v.norm() <= 7_000_000_000_000,
{
    let most: int = 4_000_000_000_000;
    assert(0 <= v.x * v.x <= most * most) by (nonlinear_arith)
        requires
            abs_int(v.x as int) <= most,
    ;
    assert(0 <= v.y * v.y <= most * most) by (nonlinear_arith)
        requires
            abs_int(v.y as int) <= most,
    ;
    assert(0 <= v.z * v.z <= most * most) by (nonlinear_arith)
        requires
            abs_int(v.z as int) <= most,
    ;
    let top: int = 7_000_000_000_000;
    assert(3 * (most * most) <= top * top) by (nonlinear_arith)
        requires
            most == 4_000_000_000_000,
            top == 7_000_000_000_000,
    ;
    lemma_isqrt_monotone(v.norm_squared(), top * top);
    lemma_isqrt_of_square(top);
    crate::fixed::lemma_isqrt_exists(v.norm_squared());
}

/// Whether every component of a velocity is of moderate size.
pub open spec fn moderate_velocity(v: Vector3) -> bool {
    &&& abs_int(v.x as int) <= EXACT_VELOCITY
    &&& abs_int(v.y as int) <= EXACT_VELOCITY
    &&& abs_int(v.z as int) <= EXACT_VELOCITY
}

/// Within moderate sizes the drag is exact: the velocity against the air
/// is the difference of the velocities, the speed against the air the root
/// of its sum of squares, the rate of drag the product of the density
/// ratio, the drag coefficient, the ballistic coefficient factor and that
/// speed, and the acceleration by drag the rate times the velocity against
/// the air, reversed; each quotient rounded toward zero.
#[verifier::rlimit(30)]
pub proof fn lemma_drag_is_exact(p: Parameters, v: Vector3)
    requires
        valid_parameters(p),
        moderate(p),
        moderate_velocity(v),
    ensures
        ({
            let w = wind_spec(p);
            let against = relative_spec(p, v);
            let rate = drag_rate_spec(p, v);
            let cd = value_at(p.projectile.drag_table.breakpoints(), mach_spec(p, v) as int);
            let drag = drag_spec(p, v);
            let n = NANO as int;
            &&& against.x == v.x - w.x
            &&& against.y == v.y - w.y
            &&& against.z == v.z - w.z
            &&& against.norm() == isqrt_spec(against.norm_squared())
            &&& rate == mul_div_int(
                mul_div_int(
                    mul_div_int(density_ratio_spec(p.atmosphere) as int, cd, MICRO as int),
                    bc_factor_spec(p) as int,
                    n,
                ),
                against.norm() as int,
                PICO as int,
            )
            &&& p.use_drag ==> drag.x == -mul_div_int(rate as int, against.x as int, n)
            &&& p.use_drag ==> drag.y == -mul_div_int(rate as int, against.y as int, n)
            &&& p.use_drag ==> drag.z == -mul_div_int(rate as int, against.z as int, n)
            &&& abs_int(drag.x as int) <= 383_164_878_320_000_000
            &&& abs_int(drag.y as int) <= 383_164_878_320_000_000
            &&& abs_int(drag.z as int) <= 383_164_878_320_000_000
        }),
{
    let n = NANO as int;
    lemma_moderate_environment(p);
    let against = relative_spec(p, v);
    lemma_moderate_speed(against);
    let speed = against.norm() as int;
    let points = p.projectile.drag_table.breakpoints();
    p.projectile.drag_table.lemma_well_formed();
    let cd = value_at(points, mach_spec(p, v) as int);
    lemma_value_at_in_range(points, mach_spec(p, v) as int);
    let ratio = density_ratio_spec(p.atmosphere) as int;
    lemma_scale_within(ratio, cd, MICRO as int, 2 * n, CURVE_LIMIT as int);
    let weighted = scale(ratio, cd, MICRO as int) as int;
    let factor = bc_factor_spec(p) as int;
    lemma_scale_within(weighted, factor, n, 2_000_000_000_000, 6_842_229_970);
    let per_meter = scale(weighted, factor, n) as int;
    lemma_scale_within(per_meter, speed, PICO as int, 13_684_459_940_000, 7_000_000_000_000);
    let rate = drag_rate_spec(p, v) as int;
    assert(abs_int(rate) <= 95_791_219_580_000);
    lemma_scale_within(rate, against.x as int, n, 95_791_219_580_000, 4_000_000_000_000);
    lemma_scale_within(rate, against.y as int, n, 95_791_219_580_000, 4_000_000_000_000);
    lemma_scale_within(rate, against.z as int, n, 95_791_219_580_000, 4_000_000_000_000);
}

/// Within moderate sizes the Coriolis acceleration is exact: minus twice
/// the cross product of the rotation and the velocity, each product rounded
/// toward zero.
#[verifier::rlimit(30)]
pub proof fn lemma_coriolis_is_exact(p: Parameters, v: Vector3)
    requires
        valid_parameters(p),
        moderate(p),
        moderate_velocity(v),
    ensures
        ({
            let turning = coriolis_spec(p, v);
            let r = rotation_spec(p);
            &&& turning.x == 2 * mul_div_int(r.z as int, v.y as int, PICO as int) - 2 * mul_div_int(
                r.y as int,
                v.z as int,
                PICO as int,
            )
            &&& turning.y == 2 * mul_div_int(r.x as int, v.z as int, PICO as int) - 2 * mul_div_int(
                r.z as int,
                v.x as int,
                PICO as int,
            )
            &&& turning.z == 2 * mul_div_int(r.y as int, v.x as int, PICO as int) - 2 * mul_div_int(
                r.x as int,
                v.y as int,
                PICO as int,
            )
            &&& abs_int(turning.x as int) <= 875_053_908
            &&& abs_int(turning.y as int) <= 875_053_908
            &&& abs_int(turning.z as int) <= 875_053_908
        }),
{
    lemma_moderate_environment(p);
    let r = rotation_spec(p);
    lemma_turn_is_exact(r.x, v.y);
    lemma_turn_is_exact(r.x, v.z);
    lemma_turn_is_exact(r.y, v.x);
    lemma_turn_is_exact(r.y, v.z);
    lemma_turn_is_exact(r.z, v.x);
    lemma_turn_is_exact(r.z, v.y);
}

/// Within moderate sizes the net acceleration is the exact sum of drag,
/// gravity and the Coriolis acceleration.
#[verifier::rlimit(30)]
pub proof fn lemma_acceleration_is_exact(p: Parameters, v: Vector3)
    requires
        valid_parameters(p),
        moderate(p),
        moderate_velocity(v),
    ensures
        ({
            let a = acceleration_spec(p, v);
            let drag = drag_spec(p, v);
            let g = gravity_spec(p);
            let turning = coriolis_spec(p, v);
            &&& a.x == drag.x + g.x + turning.x
            &&& a.y == drag.y + g.y + turning.y
            &&& a.z == drag.z + g.z + turning.z
            &&& abs_int(a.x as int) <= 400_000_000_000_000_000
            &&& abs_int(a.y as int) <= 400_000_000_000_000_000
            &&& abs_int(a.z as int) <= 400_000_000_000_000_000
        }),
{
    lemma_moderate_environment(p);
    lemma_drag_is_exact(p, v);
    lemma_coriolis_is_exact(p, v);
}

/// Within moderate sizes nothing saturates: one step is the update of the
/// velocity by the acceleration and of the position by the new velocity in
/// exact integer arithmetic, each quotient rounded toward zero.
#[verifier::rlimit(30)]
pub proof fn lemma_step_is_exact(p: Parameters, s: State)
    requires
        valid_parameters(p),
        moderate(p),
        moderate_state(s),
    ensures
        ({
            let v = s.velocity;
            let a = acceleration_spec(p, v);
            let n = NANO as int;
            let dt = p.time_step.nanoseconds as int;
            let next = step_spec(p, s);
            &&& next.velocity.x == v.x + mul_div_int(a.x as int, dt, n)
            &&& next.velocity.y == v.y + mul_div_int(a.y as int, dt, n)
            &&& next.velocity.z == v.z + mul_div_int(a.z as int, dt, n)
            &&& next.position.x == s.position.x + mul_div_int(next.velocity.x as int, dt, n)
            &&& next.position.y == s.position.y + mul_div_int(next.velocity.y as int, dt, n)
            &&& next.position.z == s.position.z + mul_div_int(next.velocity.z as int, dt, n)
            &&& next.time.nanoseconds == s.time.nanoseconds + dt
        }),
{
    let v = s.velocity;
    let n = NANO as int;
    let dt = p.time_step.nanoseconds as int;
    lemma_acceleration_is_exact(p, v);
    let a = acceleration_spec(p, v);
    lemma_scale_within(a.x as int, dt, n, 400_000_000_000_000_000, n);
    lemma_scale_within(a.y as int, dt, n, 400_000_000_000_000_000, n);
    lemma_scale_within(a.z as int, dt, n, 400_000_000_000_000_000, n);
    let next = step_spec(p, s);
    lemma_scale_within(next.velocity.x as int, dt, n, 500_000_000_000_000_000, n);
    lemma_scale_within(next.velocity.y as int, dt, n, 500_000_000_000_000_000, n);
    lemma_scale_within(next.velocity.z as int, dt, n, 500_000_000_000_000_000, n);
}

/// Twice the product of one component of a rotation no faster than the
/// Earth's and one of a moderate velocity is exact.
pub proof fn lemma_turn_is_exact(rotation: i64, velocity: i64)
    requires
        abs_int(rotation as int) <= EARTH_ROTATION,
        abs_int(velocity as int) <= EXACT_VELOCITY,
    ensures
        turn(rotation, velocity) == 2 * mul_div_int(rotation as int, velocity as int, PICO as int),
        abs_int(turn(rotation, velocity) as int) <= 437_526_954,
{
    lemma_scale_within(
        rotation as int,
        velocity as int,
        PICO as int,
        EARTH_ROTATION as int,
        EXACT_VELOCITY as int,
    );
    let once = mul_div_int(rotation as int, velocity as int, PICO as int);
    lemma_scale_within(once, 2, 1, 218_763_477, 2);
    assert(once * 2 == 2 * once);
}

/// With drag and the Coriolis force switched off, every step changes the
/// velocity by gravity times the time step and by nothing else.
pub proof fn lemma_free_fall(p: Parameters, s: State)
    requires
        !p.use_drag,
        !p.use_coriolis,
    ensures
        step_spec(p, s).velocity == s.velocity.plus(
            gravity_spec(p).scaled(p.time_step.nanoseconds as int, NANO as int),
        ),
{
    lemma_no_coriolis(p, s.velocity);
}

} // verus!
