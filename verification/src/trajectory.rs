//! The flight of the projectile as a sequence of snapshots, produced one
//! step at a time.

use vstd::prelude::*;
use crate::config::{valid_parameters, Parameters, SimulationConfig};
use crate::fixed::{mul_div_sat, scale, PICO};
use crate::force::{acceleration_spec, mach_spec, Environment};
use crate::integrator::{initial_state_spec, step_spec, State};
use crate::units::{Acceleration, Angle, Energy, Length, Mass, Numeric, Time, Velocity};
use crate::vector::Vector3;

verus! {

/// A snapshot of the flight.
#[derive(Clone, Copy, Debug, PartialEq, Eq, Structural)]
pub struct Packet {
    pub time: Time,
    /// Distance downrange along the line of sight.
    pub distance: Length,
    /// Height above the line of sight.
    pub elevation: Length,
    /// Distance to the right of the line of sight.
    pub windage: Length,
    /// Speed over the ground.
    pub velocity: Velocity,
    pub energy: Energy,
    /// Mach number against the air.
    pub mach: Numeric,
    /// Magnitude of the net acceleration.
    pub acceleration: Acceleration,
}

/// The kinetic energy of a mass at a speed, in microjoules: half the mass
/// times the speed squared.
pub open spec fn energy_spec(mass: Mass, speed: i64) -> i64 {
    scale(scale(mass.nanograms as int, speed as int, PICO as int) as int, speed as int, 2 * PICO)
}

/// The snapshot of a state.
pub open spec fn packet_spec(p: Parameters, s: State) -> Packet {
    Packet {
        time: s.time,
        distance: Length { nanometers: s.position.x },
        elevation: Length { nanometers: s.position.y },
        windage: Length { nanometers: s.position.z },
        velocity: Velocity { nm_per_s: s.velocity.norm() },
        energy: Energy { microjoules: energy_spec(p.projectile.mass, s.velocity.norm()) },
        mach: Numeric { millionths: mach_spec(p, s.velocity) },
        acceleration: Acceleration { nm_per_s2: acceleration_spec(p, s.velocity).norm() },
    }
}

/// Whether every component lies strictly inside the range of `i64`.
pub open spec fn inside(v: Vector3) -> bool {
    &&& i64::MIN < v.x < i64::MAX
    &&& i64::MIN < v.y < i64::MAX
    &&& i64::MIN < v.z < i64::MAX
}

/// Whether the flight goes on from a state: the projectile still moves
/// downrange, its position and velocity have not run into the limits of
/// the arithmetic, and the clock can take one more step.
pub open spec fn flying(p: Parameters, s: State) -> bool {
    &&& s.velocity.x > 0
    &&& inside(s.position)
    &&& inside(s.velocity)
    &&& s.time.nanoseconds + p.time_step.nanoseconds <= i64::MAX
}

/// The state after `n` steps from the muzzle.
pub open spec fn state_at(p: Parameters, pitch: Angle, yaw: Angle, n: nat) -> State
    decreases n,
{
    if n == 0 {
        initial_state_spec(p, pitch, yaw)
    } else {
        step_spec(p, state_at(p, pitch, yaw, (n - 1) as nat))
    }
}

/// Whether the flight reaches its `n`-th state: every state before it
/// was one from which the flight goes on.
pub open spec fn reached(p: Parameters, pitch: Angle, yaw: Angle, n: nat) -> bool {
    forall|k: nat| k < n ==> flying(p, #[trigger] state_at(p, pitch, yaw, k))
}

/// Whether the sequence has an `n`-th snapshot.
pub open spec fn has_packet(p: Parameters, pitch: Angle, yaw: Angle, n: nat) -> bool {
    reached(p, pitch, yaw, n) && flying(p, state_at(p, pitch, yaw, n))
}

/// The `n`-th snapshot of the sequence.
pub open spec fn packet_at(p: Parameters, pitch: Angle, yaw: Angle, n: nat) -> Packet {
    packet_spec(p, state_at(p, pitch, yaw, n))
}

/// Two runs of one configuration at one pair of launch angles give the
/// same snapshots, step by step.
pub proof fn lemma_runs_agree(
    p: Parameters,
    q: Parameters,
    pitch: Angle,
    yaw: Angle,
    other_pitch: Angle,
    other_yaw: Angle,
    n: nat,
)
    requires
        p == q,
        pitch == other_pitch,
        yaw == other_yaw,
    ensures
        has_packet(p, pitch, yaw, n) == has_packet(q, other_pitch, other_yaw, n),
        packet_at(p, pitch, yaw, n) == packet_at(q, other_pitch, other_yaw, n),
{
}

/// While the flight goes on the clock advances by exactly one time step.
pub proof fn lemma_time_advances(p: Parameters, s: State)
    requires
        valid_parameters(p),
        flying(p, s),
    ensures
        step_spec(p, s).time.nanoseconds == s.time.nanoseconds + p.time_step.nanoseconds,
        step_spec(p, s).time.nanoseconds > s.time.nanoseconds,
{
}

/// A step that ends with the projectile still moving downrange has not
/// lost distance.
pub proof fn lemma_distance_non_decreasing(p: Parameters, s: State)
    requires
        valid_parameters(p),
        step_spec(p, s).velocity.x >= 0,
    ensures
        step_spec(p, s).position.x >= s.position.x,
{
    let next = step_spec(p, s);
    crate::fixed::lemma_trunc_div_bounds(
        next.velocity.x * p.time_step.nanoseconds,
        crate::fixed::NANO as int,
    );
    assert(next.velocity.x * p.time_step.nanoseconds >= 0) by (nonlinear_arith)
        requires
            next.velocity.x >= 0,
            p.time_step.nanoseconds > 0,
    ;
}

/// Time never runs backward along the sequence, and neither does the
/// distance between two snapshots that follow each other.
pub proof fn lemma_sequence_monotone(p: Parameters, pitch: Angle, yaw: Angle, n: nat)
    requires
        valid_parameters(p),
        has_packet(p, pitch, yaw, n + 1),
    ensures
        packet_at(p, pitch, yaw, n).time.nanoseconds < packet_at(
            p,
            pitch,
            yaw,
            n + 1,
        ).time.nanoseconds,
        packet_at(p, pitch, yaw, n).distance.nanometers <= packet_at(
            p,
            pitch,
            yaw,
            n + 1,
        ).distance.nanometers,
{
    let s = state_at(p, pitch, yaw, n);
    assert(flying(p, s));
    assert(state_at(p, pitch, yaw, n + 1) == step_spec(p, s));
    lemma_time_advances(p, s);
    lemma_distance_non_decreasing(p, s);
}

/// A flight that reaches a state has reached every state before it, and
/// went on from each of them.
pub proof fn lemma_reached_before(p: Parameters, pitch: Angle, yaw: Angle, n: nat, m: nat)
    requires
        reached(p, pitch, yaw, n),
        m <= n,
    ensures
        reached(p, pitch, yaw, m),
        m < n ==> flying(p, state_at(p, pitch, yaw, m)),
{
}

/// The clock of a flight counts its steps: the state that the flight
/// reaches after `n` steps has the time `n` time steps.
pub proof fn lemma_time_counts_steps(p: Parameters, pitch: Angle, yaw: Angle, n: nat)
    requires
        valid_parameters(p),
        reached(p, pitch, yaw, n),
    ensures
        state_at(p, pitch, yaw, n).time.nanoseconds == n * p.time_step.nanoseconds,
    decreases n,
{
    let dt = p.time_step.nanoseconds as int;
    if n > 0 {
        let before = (n - 1) as nat;
        lemma_reached_before(p, pitch, yaw, n, before);
        lemma_time_counts_steps(p, pitch, yaw, before);
        let s = state_at(p, pitch, yaw, before);
        lemma_time_advances(p, s);
        assert(state_at(p, pitch, yaw, n) == step_spec(p, s));
        assert(n * dt == before * dt + dt) by (nonlinear_arith)
            requires
                n == before + 1,
        ;
    } else {
        assert(0 * dt == 0);
    }
}

/// Every flight ends: a sequence has no snapshot whose clock could not take
/// one more step, and so none after as many steps as the clock can count.
pub proof fn lemma_flight_is_finite(p: Parameters, pitch: Angle, yaw: Angle, n: nat)
    requires
        valid_parameters(p),
        (n + 1) * p.time_step.nanoseconds > i64::MAX,
    ensures
        !has_packet(p, pitch, yaw, n),
{
    let dt = p.time_step.nanoseconds as int;
    if has_packet(p, pitch, yaw, n) {
        lemma_time_counts_steps(p, pitch, yaw, n);
        assert((n + 1) * dt == n * dt + dt) by (nonlinear_arith);
    }
}

/// What a trajectory is of, and how far it has come.
pub struct TrajectoryView {
    pub parameters: Parameters,
    pub pitch: Angle,
    pub yaw: Angle,
    /// The number of steps taken from the muzzle.
    pub steps: nat,
}

/// The flight for one configuration and one pair of launch angles, handed
/// out snapshot by snapshot.  It holds only its current state.
pub struct Trajectory {
    environment: Environment,
    pitch: Angle,
    yaw: Angle,
    progress: Progress,
}

/// The current state of a trajectory and the number of steps that led to it.
struct Progress {
    state: State,
    steps: Ghost<nat>,
}

impl View for Trajectory {
    type V = TrajectoryView;

    closed spec fn view(&self) -> TrajectoryView {
        TrajectoryView {
            parameters: self.environment@,
            pitch: self.pitch,
            yaw: self.yaw,
            steps: self.progress.steps@,
        }
    }
}

impl Trajectory {
    #[verifier::type_invariant]
    spec fn well_formed(self) -> bool {
        &&& valid_parameters(self.environment@)
        &&& self.progress.state == state_at(
            self.environment@,
            self.pitch,
            self.yaw,
            self.progress.steps@,
        )
        &&& reached(self.environment@, self.pitch, self.yaw, self.progress.steps@)
    }

    /// Places the projectile at the muzzle.
    pub fn new(config: &SimulationConfig, pitch: Angle, yaw: Angle) -> (t: Trajectory)
        ensures
            t@ == (TrajectoryView { parameters: config@, pitch, yaw, steps: 0 }),
    {
        let environment = Environment::new(config);
        let state = environment.launch(pitch, yaw);
        Trajectory { environment, pitch, yaw, progress: Progress { state, steps: Ghost(0) } }
    }

    /// The state that the next snapshot will be taken of.
    pub fn state(&self) -> (s: State)
        ensures
            s == state_at(self@.parameters, self@.pitch, self@.yaw, self@.steps),
            reached(self@.parameters, self@.pitch, self@.yaw, self@.steps),
            valid_parameters(self@.parameters),
    {
        proof {
            use_type_invariant(self);
        }
        self.progress.state
    }

    /// Whether another snapshot is to come.
    pub fn in_flight(&self) -> (b: bool)
        ensures
            b == has_packet(self@.parameters, self@.pitch, self@.yaw, self@.steps),
    {
        proof {
            use_type_invariant(self);
        }
        let dt = self.environment.parameters().time_step.nanoseconds;
        let s = &self.progress.state;
        s.velocity.x > 0 && within(&s.position) && within(&s.velocity) && s.time.nanoseconds
            <= i64::MAX - dt
    }

    /// The snapshot of the current state.
    fn packet(&self) -> (pk: Packet)
        ensures
            pk == packet_at(self@.parameters, self@.pitch, self@.yaw, self@.steps),
    {
        proof {
            use_type_invariant(self);
        }
        let s = &self.progress.state;
        let speed = s.velocity.length();
        let mass = self.environment.parameters().projectile.mass.nanograms;
        Packet {
            time: s.time,
            distance: Length { nanometers: s.position.x },
            elevation: Length { nanometers: s.position.y },
            windage: Length { nanometers: s.position.z },
            velocity: Velocity { nm_per_s: speed },
            energy: Energy {
                microjoules: mul_div_sat(mul_div_sat(mass, speed, PICO), speed, 2 * PICO),
            },
            mach: self.environment.mach(&s.velocity),
            acceleration: Acceleration {
                nm_per_s2: self.environment.acceleration(&s.velocity).length(),
            },
        }
    }

    /// Hands out the next snapshot and advances the flight by one step.
    /// Returns `None`, and stays where it is, once the flight has ended.
    #[verifier::rlimit(30)]
    pub fn next(&mut self) -> (r: Option<Packet>)
        ensures
            final(self)@.parameters == old(self)@.parameters,
            final(self)@.pitch == old(self)@.pitch,
            final(self)@.yaw == old(self)@.yaw,
            match r {
                Some(pk) => {
                    &&& has_packet(
                        old(self)@.parameters,
                        old(self)@.pitch,
                        old(self)@.yaw,
                        old(self)@.steps,
                    )
                    &&& pk == packet_at(
                        old(self)@.parameters,
                        old(self)@.pitch,
                        old(self)@.yaw,
                        old(self)@.steps,
                    )
                    &&& final(self)@.steps == old(self)@.steps + 1
                },
                None => {
                    &&& !has_packet(
                        old(self)@.parameters,
                        old(self)@.pitch,
                        old(self)@.yaw,
                        old(self)@.steps,
                    )
                    &&& final(self)@.steps == old(self)@.steps
                },
            },
    {
        proof {
            use_type_invariant(&*self);
        }
        if !self.in_flight() {
            return None;
        }
        let pk = self.packet();
        let next = self.environment.step(&self.progress.state);
        proof {
            let p = self.environment@;
            let n = self.progress.steps@;
            assert(state_at(p, self.pitch, self.yaw, n + 1) == step_spec(
                p,
                state_at(p, self.pitch, self.yaw, n),
            ));
            assert(reached(p, self.pitch, self.yaw, n + 1)) by {
                assert forall|k: nat| k < n + 1 implies flying(
                    p,
                    #[trigger] state_at(p, self.pitch, self.yaw, k),
                ) by {
                    if k < n {
                    }
                }
            }
        }
        self.progress = Progress { state: next, steps: Ghost((self.progress.steps@ + 1) as nat) };
        Some(pk)
    }
}

/// Whether every component lies strictly inside the range of `i64`.
fn within(v: &Vector3) -> (b: bool)
    ensures
        b == inside(*v),
{
    i64::MIN < v.x && v.x < i64::MAX && i64::MIN < v.y && v.y < i64::MAX && i64::MIN < v.z && v.z
        < i64::MAX
}

} // verus!
