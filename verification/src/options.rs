//! What a caller asks for: the options of one run, each left open or set,
//! and how they become the parameters of the zeroing and the firing
//! simulation.

use vstd::prelude::*;
use crate::config::{
    standard_parameters, Atmosphere, ConfigError, Parameters, ShooterGeometry, SimulationConfig,
    Wind,
};
use crate::drag::DragTable;
use crate::error::Error;
use crate::fixed::{add_sat, plus};
use crate::report::{table_spec, Layout};
use crate::table::{packets_between, range_table, sampling};
use crate::trajectory::{has_packet, Packet, Trajectory};
use crate::zero::{find_zero_angles, zero_spec, Target, ZeroError};
use crate::units::{
    Acceleration, Angle, Length, Mass, Numeric, Pressure, ThermodynamicTemperature, Time, Velocity,
};

verus! {

/// The options of one run.
#[derive(Clone, Copy, Debug)]
pub struct Options {
    pub time_interval: Time,
    pub flags: Flags,
    pub table: Table,
    pub projectile: Projectile,
    pub scope: Scope,
    pub firing: Firing,
    pub zeroing: Zeroing,
}

/// Switches.  The forces are on unless disabled.
#[derive(Clone, Copy, Debug)]
pub struct Flags {
    pub flat: bool,
    pub disable_drag: bool,
    pub disable_coriolis: bool,
    pub disable_gravity: bool,
    pub pretty: bool,
}

/// The range table to produce.
#[derive(Clone, Copy, Debug)]
pub struct Table {
    pub table_start: Length,
    pub table_end: Length,
    pub table_step: Length,
    pub table_tolerance: Length,
}

/// Options on the projectile.
#[derive(Clone, Copy, Debug)]
pub struct Projectile {
    pub projectile_velocity: Option<Velocity>,
    pub projectile_mass: Option<Mass>,
    pub projectile_caliber: Option<Length>,
    pub projectile_bc: Bc,
}

/// Options on the ballistic coefficient.
#[derive(Clone, Copy, Debug)]
pub struct Bc {
    pub bc_value: Option<Numeric>,
    pub bc_kind: Option<DragTable>,
}

/// Options on the sight.
#[derive(Clone, Copy, Debug)]
pub struct Scope {
    pub scope_height: Option<Length>,
    pub scope_offset: Option<Length>,
    pub scope_pitch: Option<Angle>,
    pub scope_yaw: Option<Angle>,
    pub scope_cant: Option<Angle>,
}

/// Conditions while firing.
#[derive(Clone, Copy, Debug)]
pub struct Firing {
    pub firing_atmosphere: FiringAtmosphere,
    pub firing_wind: FiringWind,
    pub firing_shooter: FiringShooter,
}

/// Wind while firing.
#[derive(Clone, Copy, Debug)]
pub struct FiringWind {
    pub firing_wind_speed: Option<Velocity>,
    pub firing_wind_angle: Option<Angle>,
}

/// Air while firing.
#[derive(Clone, Copy, Debug)]
pub struct FiringAtmosphere {
    pub firing_atmosphere_temperature: Option<ThermodynamicTemperature>,
    pub firing_atmosphere_pressure: Option<Pressure>,
    pub firing_atmosphere_humidity: Option<Numeric>,
}

/// The shooter's place and line of sight while firing.
#[derive(Clone, Copy, Debug)]
pub struct FiringShooter {
    pub firing_shooter_lattitude: Option<Angle>,
    pub firing_shooter_bearing: Option<Angle>,
    pub firing_shooter_angle: Option<Angle>,
    pub firing_shooter_gravity: Option<Acceleration>,
}

/// Conditions while zeroing, and the target zeroed on.
#[derive(Clone, Copy, Debug)]
pub struct Zeroing {
    pub zeroing_wind: ZeroingWind,
    pub zeroing_atmosphere: ZeroingAtmosphere,
    pub zeroing_shooter: ZeroingShooter,
    pub zeroing_target: ZeroingTarget,
}

/// Wind while zeroing.
#[derive(Clone, Copy, Debug)]
pub struct ZeroingWind {
    pub zeroing_wind_speed: Option<Velocity>,
    pub zeroing_wind_angle: Option<Angle>,
}

/// Air while zeroing.
#[derive(Clone, Copy, Debug)]
pub struct ZeroingAtmosphere {
    pub zeroing_atmosphere_temperature: Option<ThermodynamicTemperature>,
    pub zeroing_atmosphere_pressure: Option<Pressure>,
    pub zeroing_atmosphere_humidity: Option<Numeric>,
}

/// The shooter's place and line of sight while zeroing.
#[derive(Clone, Copy, Debug)]
pub struct ZeroingShooter {
    pub zeroing_shooter_lattitude: Option<Angle>,
    pub zeroing_shooter_bearing: Option<Angle>,
    pub zeroing_shooter_angle: Option<Angle>,
    pub zeroing_shooter_gravity: Option<Acceleration>,
}

/// The point to zero on, and how close is close enough.
#[derive(Clone, Copy, Debug)]
pub struct ZeroingTarget {
    pub zeroing_target_distance: Length,
    pub zeroing_target_height: Length,
    pub zeroing_target_offset: Length,
    pub zeroing_target_tolerance: Length,
}

/// The value of an option that is set, and else the value given for it.
pub open spec fn or_else<T>(option: Option<T>, otherwise: T) -> T {
    match option {
        Some(value) => value,
        None => otherwise,
    }
}

/// The value of an option that is set, and else the value given for it.
pub fn value_or<T: Copy>(option: Option<T>, otherwise: T) -> (r: T)
    ensures
        r == or_else(option, otherwise),
{
    match option {
        Some(value) => value,
        None => otherwise,
    }
}

/// The air of a scenario: each of `base` unless the option for it is set.
pub open spec fn atmosphere_over(
    base: Atmosphere,
    temperature: Option<ThermodynamicTemperature>,
    pressure: Option<Pressure>,
    humidity: Option<Numeric>,
) -> Atmosphere {
    Atmosphere {
        temperature: or_else(temperature, base.temperature),
        pressure: or_else(pressure, base.pressure),
        humidity: or_else(humidity, base.humidity),
    }
}

/// The wind of a scenario: each of `base` unless the option for it is set.
pub open spec fn wind_over(base: Wind, speed: Option<Velocity>, angle: Option<Angle>) -> Wind {
    Wind { speed: or_else(speed, base.speed), direction: or_else(angle, base.direction) }
}

/// The shooter of a scenario: each of `base` unless the option for it is set.
pub open spec fn shooter_over(
    base: ShooterGeometry,
    lattitude: Option<Angle>,
    bearing: Option<Angle>,
    angle: Option<Angle>,
    gravity: Option<Acceleration>,
) -> ShooterGeometry {
    ShooterGeometry {
        latitude: or_else(lattitude, base.latitude),
        bearing: or_else(bearing, base.bearing),
        incline: or_else(angle, base.incline),
        gravity: or_else(gravity, base.gravity),
    }
}

/// An angle of the sight while firing: the correction found by zeroing,
/// added to the option where it is set.
pub open spec fn corrected(option: Option<Angle>, correction: Angle) -> Angle {
    match option {
        Some(value) => Angle {
            nanoradians: plus(value.nanoradians as int, correction.nanoradians as int),
        },
        None => correction,
    }
}

/// Lays the options that are set over the air of `base`.
pub fn atmosphere_with(
    base: Atmosphere,
    temperature: Option<ThermodynamicTemperature>,
    pressure: Option<Pressure>,
    humidity: Option<Numeric>,
) -> (r: Atmosphere)
    ensures
        r == atmosphere_over(base, temperature, pressure, humidity),
{
    let mut atmosphere = base;
    if let Some(value) = temperature {
        atmosphere.temperature = value;
    }
    if let Some(value) = pressure {
        atmosphere.pressure = value;
    }
    if let Some(value) = humidity {
        atmosphere.humidity = value;
    }
    atmosphere
}

/// Lays the options that are set over the wind of `base`.
pub fn wind_with(base: Wind, speed: Option<Velocity>, angle: Option<Angle>) -> (r: Wind)
    ensures
        r == wind_over(base, speed, angle),
{
    let mut wind = base;
    if let Some(value) = speed {
        wind.speed = value;
    }
    if let Some(value) = angle {
        wind.direction = value;
    }
    wind
}

/// Lays the options that are set over the shooter of `base`.
pub fn shooter_with(
    base: ShooterGeometry,
    lattitude: Option<Angle>,
    bearing: Option<Angle>,
    angle: Option<Angle>,
    gravity: Option<Acceleration>,
) -> (r: ShooterGeometry)
    ensures
        r == shooter_over(base, lattitude, bearing, angle, gravity),
{
    let mut shooter = base;
    if let Some(value) = angle {
        shooter.incline = value;
    }
    if let Some(value) = lattitude {
        shooter.latitude = value;
    }
    if let Some(value) = bearing {
        shooter.bearing = value;
    }
    if let Some(value) = gravity {
        shooter.gravity = value;
    }
    shooter
}

/// Adds the correction found by zeroing to an angle of the sight.
pub fn correct(option: Option<Angle>, correction: Angle) -> (r: Angle)
    ensures
        r == corrected(option, correction),
{
    if let Some(value) = option {
        Angle { nanoradians: add_sat(value.nanoradians, correction.nanoradians) }
    } else {
        correction
    }
}

impl Flags {
    pub fn flat(&self) -> (r: bool)
        ensures
            r == self.flat,
    {
        self.flat
    }

    pub fn pretty(&self) -> (r: bool)
        ensures
            r == self.pretty,
    {
        self.pretty
    }

    /// Whether drag acts.
    pub fn drag(&self) -> (r: bool)
        ensures
            r == !self.disable_drag,
    {
        !self.disable_drag
    }

    /// Whether gravity acts.
    pub fn gravity(&self) -> (r: bool)
        ensures
            r == !self.disable_gravity,
    {
        !self.disable_gravity
    }

    /// Whether the Coriolis force acts.
    pub fn coriolis(&self) -> (r: bool)
        ensures
            r == !self.disable_coriolis,
    {
        !self.disable_coriolis
    }
}

impl Table {
    pub fn start(&self) -> (r: Length)
        ensures
            r == self.table_start,
    {
        self.table_start
    }

    pub fn end(&self) -> (r: Length)
        ensures
            r == self.table_end,
    {
        self.table_end
    }

    pub fn step(&self) -> (r: Length)
        ensures
            r == self.table_step,
    {
        self.table_step
    }

    pub fn tolerance(&self) -> (r: Length)
        ensures
            r == self.table_tolerance,
    {
        self.table_tolerance
    }
}

impl Projectile {
    pub fn velocity(&self) -> (r: Option<Velocity>)
        ensures
            r == self.projectile_velocity,
    {
        self.projectile_velocity
    }

    pub fn mass(&self) -> (r: Option<Mass>)
        ensures
            r == self.projectile_mass,
    {
        self.projectile_mass
    }

    pub fn caliber(&self) -> (r: Option<Length>)
        ensures
            r == self.projectile_caliber,
    {
        self.projectile_caliber
    }

    pub fn bc(&self) -> (r: &Bc)
        ensures
            *r == self.projectile_bc,
    {
        &self.projectile_bc
    }
}

impl Bc {
    pub fn value(&self) -> (r: Option<Numeric>)
        ensures
            r == self.bc_value,
    {
        self.bc_value
    }

    pub fn kind(&self) -> (r: Option<DragTable>)
        ensures
            r == self.bc_kind,
    {
        self.bc_kind
    }
}

impl Scope {
    pub fn height(&self) -> (r: Option<Length>)
        ensures
            r == self.scope_height,
    {
        self.scope_height
    }

    pub fn offset(&self) -> (r: Option<Length>)
        ensures
            r == self.scope_offset,
    {
        self.scope_offset
    }

    pub fn pitch(&self) -> (r: Option<Angle>)
        ensures
            r == self.scope_pitch,
    {
        self.scope_pitch
    }

    pub fn yaw(&self) -> (r: Option<Angle>)
        ensures
            r == self.scope_yaw,
    {
        self.scope_yaw
    }

    pub fn cant(&self) -> (r: Option<Angle>)
        ensures
            r == self.scope_cant,
    {
        self.scope_cant
    }
}

impl Firing {
    pub fn atmosphere(&self) -> (r: &FiringAtmosphere)
        ensures
            *r == self.firing_atmosphere,
    {
        &self.firing_atmosphere
    }

    pub fn wind(&self) -> (r: &FiringWind)
        ensures
            *r == self.firing_wind,
    {
        &self.firing_wind
    }

    pub fn shooter(&self) -> (r: &FiringShooter)
        ensures
            *r == self.firing_shooter,
    {
        &self.firing_shooter
    }
}

impl FiringWind {
    pub fn speed(&self) -> (r: Option<Velocity>)
        ensures
            r == self.firing_wind_speed,
    {
        self.firing_wind_speed
    }

    pub fn angle(&self) -> (r: Option<Angle>)
        ensures
            r == self.firing_wind_angle,
    {
        self.firing_wind_angle
    }
}

impl FiringAtmosphere {
    pub fn temperature(&self) -> (r: Option<ThermodynamicTemperature>)
        ensures
            r == self.firing_atmosphere_temperature,
    {
        self.firing_atmosphere_temperature
    }

    pub fn pressure(&self) -> (r: Option<Pressure>)
        ensures
            r == self.firing_atmosphere_pressure,
    {
        self.firing_atmosphere_pressure
    }

    pub fn humidity(&self) -> (r: Option<Numeric>)
        ensures
            r == self.firing_atmosphere_humidity,
    {
        self.firing_atmosphere_humidity
    }
}

impl FiringShooter {
    pub fn lattitude(&self) -> (r: Option<Angle>)
        ensures
            r == self.firing_shooter_lattitude,
    {
        self.firing_shooter_lattitude
    }

    pub fn bearing(&self) -> (r: Option<Angle>)
        ensures
            r == self.firing_shooter_bearing,
    {
        self.firing_shooter_bearing
    }

    /// The angle of the line of sight above the horizontal.
    pub fn angle(&self) -> (r: Option<Angle>)
        ensures
            r == self.firing_shooter_angle,
    {
        self.firing_shooter_angle
    }

    pub fn gravity(&self) -> (r: Option<Acceleration>)
        ensures
            r == self.firing_shooter_gravity,
    {
        self.firing_shooter_gravity
    }
}

impl Zeroing {
    pub fn atmosphere(&self) -> (r: &ZeroingAtmosphere)
        ensures
            *r == self.zeroing_atmosphere,
    {
        &self.zeroing_atmosphere
    }

    pub fn wind(&self) -> (r: &ZeroingWind)
        ensures
            *r == self.zeroing_wind,
    {
        &self.zeroing_wind
    }

    pub fn shooter(&self) -> (r: &ZeroingShooter)
        ensures
            *r == self.zeroing_shooter,
    {
        &self.zeroing_shooter
    }

    pub fn target(&self) -> (r: &ZeroingTarget)
        ensures
            *r == self.zeroing_target,
    {
        &self.zeroing_target
    }
}

impl ZeroingWind {
    pub fn speed(&self) -> (r: Option<Velocity>)
        ensures
            r == self.zeroing_wind_speed,
    {
        self.zeroing_wind_speed
    }

    pub fn angle(&self) -> (r: Option<Angle>)
        ensures
            r == self.zeroing_wind_angle,
    {
        self.zeroing_wind_angle
    }
}

impl ZeroingAtmosphere {
    pub fn temperature(&self) -> (r: Option<ThermodynamicTemperature>)
        ensures
            r == self.zeroing_atmosphere_temperature,
    {
        self.zeroing_atmosphere_temperature
    }

    pub fn pressure(&self) -> (r: Option<Pressure>)
        ensures
            r == self.zeroing_atmosphere_pressure,
    {
        self.zeroing_atmosphere_pressure
    }

    pub fn humidity(&self) -> (r: Option<Numeric>)
        ensures
            r == self.zeroing_atmosphere_humidity,
    {
        self.zeroing_atmosphere_humidity
    }
}

impl ZeroingShooter {
    pub fn lattitude(&self) -> (r: Option<Angle>)
        ensures
            r == self.zeroing_shooter_lattitude,
    {
        self.zeroing_shooter_lattitude
    }

    pub fn bearing(&self) -> (r: Option<Angle>)
        ensures
            r == self.zeroing_shooter_bearing,
    {
        self.zeroing_shooter_bearing
    }

    /// The angle of the line of sight above the horizontal.
    pub fn angle(&self) -> (r: Option<Angle>)
        ensures
            r == self.zeroing_shooter_angle,
    {
        self.zeroing_shooter_angle
    }

    pub fn gravity(&self) -> (r: Option<Acceleration>)
        ensures
            r == self.zeroing_shooter_gravity,
    {
        self.zeroing_shooter_gravity
    }
}

impl ZeroingTarget {
    pub fn distance(&self) -> (r: Length)
        ensures
            r == self.zeroing_target_distance,
    {
        self.zeroing_target_distance
    }

    pub fn height(&self) -> (r: Length)
        ensures
            r == self.zeroing_target_height,
    {
        self.zeroing_target_height
    }

    pub fn offset(&self) -> (r: Length)
        ensures
            r == self.zeroing_target_offset,
    {
        self.zeroing_target_offset
    }

    pub fn tolerance(&self) -> (r: Length)
        ensures
            r == self.zeroing_target_tolerance,
    {
        self.zeroing_target_tolerance
    }
}

impl Options {
    pub fn time(&self) -> (r: Time)
        ensures
            r == self.time_interval,
    {
        self.time_interval
    }

    pub fn flags(&self) -> (r: &Flags)
        ensures
            *r == self.flags,
    {
        &self.flags
    }

    pub fn table(&self) -> (r: &Table)
        ensures
            *r == self.table,
    {
        &self.table
    }

    pub fn projectile(&self) -> (r: &Projectile)
        ensures
            *r == self.projectile,
    {
        &self.projectile
    }

    pub fn scope(&self) -> (r: &Scope)
        ensures
            *r == self.scope,
    {
        &self.scope
    }

    pub fn firing(&self) -> (r: &Firing)
        ensures
            *r == self.firing,
    {
        &self.firing
    }

    pub fn zeroing(&self) -> (r: &Zeroing)
        ensures
            *r == self.zeroing,
    {
        &self.zeroing
    }

    /// What the zeroing and the firing simulation share: the standard
    /// parameters, with the time step and the switches of these options, and
    /// with each option on the projectile and on the sight's place that is
    /// set.  The sight's pitch and yaw stay zero.
    pub open spec fn shared_params_spec(self) -> Parameters {
        let base = standard_parameters();
        Parameters {
            time_step: self.time_interval,
            use_coriolis: !self.flags.disable_coriolis,
            use_drag: !self.flags.disable_drag,
            use_gravity: !self.flags.disable_gravity,
            projectile: crate::config::Projectile {
                bc: or_else(self.projectile.projectile_bc.bc_value, base.projectile.bc),
                drag_table: or_else(
                    self.projectile.projectile_bc.bc_kind,
                    base.projectile.drag_table,
                ),
                velocity: or_else(self.projectile.projectile_velocity, base.projectile.velocity),
                mass: or_else(self.projectile.projectile_mass, base.projectile.mass),
                caliber: or_else(self.projectile.projectile_caliber, base.projectile.caliber),
            },
            scope: crate::config::ScopeGeometry {
                height: or_else(self.scope.scope_height, base.scope.height),
                offset: or_else(self.scope.scope_offset, base.scope.offset),
                roll: or_else(self.scope.scope_cant, base.scope.roll),
                pitch: base.scope.pitch,
                yaw: base.scope.yaw,
            },
            atmosphere: base.atmosphere,
            wind: base.wind,
            shooter: base.shooter,
        }
    }

    /// The parameters of the zeroing simulation: `builder`, with each
    /// zeroing condition that is set.
    pub open spec fn zero_scenario_spec(self, builder: Parameters) -> Parameters {
        Parameters {
            atmosphere: atmosphere_over(
                builder.atmosphere,
                self.zeroing.zeroing_atmosphere.zeroing_atmosphere_temperature,
                self.zeroing.zeroing_atmosphere.zeroing_atmosphere_pressure,
                self.zeroing.zeroing_atmosphere.zeroing_atmosphere_humidity,
            ),
            wind: wind_over(
                builder.wind,
                self.zeroing.zeroing_wind.zeroing_wind_speed,
                self.zeroing.zeroing_wind.zeroing_wind_angle,
            ),
            shooter: shooter_over(
                builder.shooter,
                self.zeroing.zeroing_shooter.zeroing_shooter_lattitude,
                self.zeroing.zeroing_shooter.zeroing_shooter_bearing,
                self.zeroing.zeroing_shooter.zeroing_shooter_angle,
                self.zeroing.zeroing_shooter.zeroing_shooter_gravity,
            ),
            ..builder
        }
    }

    /// The parameters of the firing simulation: `builder`, with each firing
    /// condition that is set, and with the corrections found by zeroing
    /// added to the sight's pitch and yaw.
    pub open spec fn firing_scenario_spec(
        self,
        builder: Parameters,
        pitch: Angle,
        yaw: Angle,
    ) -> Parameters {
        Parameters {
            scope: crate::config::ScopeGeometry {
                pitch: corrected(self.scope.scope_pitch, pitch),
                yaw: corrected(self.scope.scope_yaw, yaw),
                ..builder.scope
            },
            atmosphere: atmosphere_over(
                builder.atmosphere,
                self.firing.firing_atmosphere.firing_atmosphere_temperature,
                self.firing.firing_atmosphere.firing_atmosphere_pressure,
                self.firing.firing_atmosphere.firing_atmosphere_humidity,
            ),
            wind: wind_over(
                builder.wind,
                self.firing.firing_wind.firing_wind_speed,
                self.firing.firing_wind.firing_wind_angle,
            ),
            shooter: shooter_over(
                builder.shooter,
                self.firing.firing_shooter.firing_shooter_lattitude,
                self.firing.firing_shooter.firing_shooter_bearing,
                self.firing.firing_shooter.firing_shooter_angle,
                self.firing.firing_shooter.firing_shooter_gravity,
            ),
            ..builder
        }
    }

    /// Gathers what the zeroing and the firing simulation share.
    #[verifier::rlimit(30)]
    pub fn shared_params(&self) -> (builder: Parameters)
        ensures
            builder == self.shared_params_spec(),
    {
        let mut builder = Parameters::standard();
        builder.time_step = self.time();

        builder.use_coriolis = self.flags().coriolis();
        builder.use_drag = self.flags().drag();
        builder.use_gravity = self.flags().gravity();

        let projectile = self.projectile();
        builder.projectile.bc = value_or(projectile.bc().value(), builder.projectile.bc);
        builder.projectile.drag_table = value_or(
            projectile.bc().kind(),
            builder.projectile.drag_table,
        );
        builder.projectile.velocity = value_or(projectile.velocity(), builder.projectile.velocity);
        builder.projectile.mass = value_or(projectile.mass(), builder.projectile.mass);
        builder.projectile.caliber = value_or(projectile.caliber(), builder.projectile.caliber);

        let scope = self.scope();
        builder.scope.height = value_or(scope.height(), builder.scope.height);
        builder.scope.offset = value_or(scope.offset(), builder.scope.offset);
        builder.scope.roll = value_or(scope.cant(), builder.scope.roll);

        builder
    }

    /// Builds the zeroing simulation's configuration.  Fails with the first
    /// rule that the resulting parameters break.
    #[verifier::rlimit(30)]
    pub fn zero_scenario(&self, builder: Parameters) -> (r: Result<SimulationConfig, ConfigError>)
        ensures
            match r {
                Ok(config) => config@ == self.zero_scenario_spec(builder)
                    && crate::config::first_violation(self.zero_scenario_spec(builder)) is None,
                Err(e) => crate::config::first_violation(self.zero_scenario_spec(builder))
                    == Some(e),
            },
    {
        let mut builder = builder;
        let atmosphere = self.zeroing().atmosphere();
        builder.atmosphere = atmosphere_with(
            builder.atmosphere,
            atmosphere.temperature(),
            atmosphere.pressure(),
            atmosphere.humidity(),
        );
        let wind = self.zeroing().wind();
        builder.wind = wind_with(builder.wind, wind.speed(), wind.angle());
        let shooter = self.zeroing().shooter();
        builder.shooter = shooter_with(
            builder.shooter,
            shooter.lattitude(),
            shooter.bearing(),
            shooter.angle(),
            shooter.gravity(),
        );
        SimulationConfig::new(builder)
    }

    /// Builds the firing simulation's configuration from the corrections
    /// that zeroing found.  Fails with the first rule that the resulting
    /// parameters break.
    #[verifier::rlimit(30)]
    pub fn firing_scenario(&self, builder: Parameters, pitch: Angle, yaw: Angle) -> (r: Result<
        SimulationConfig,
        ConfigError,
    >)
        ensures
            match r {
                Ok(config) => config@ == self.firing_scenario_spec(builder, pitch, yaw)
                    && crate::config::first_violation(
                    self.firing_scenario_spec(builder, pitch, yaw),
                ) is None,
                Err(e) => crate::config::first_violation(
                    self.firing_scenario_spec(builder, pitch, yaw),
                ) == Some(e),
            },
    {
        let mut builder = builder;
        builder.scope.pitch = correct(self.scope().pitch(), pitch);
        builder.scope.yaw = correct(self.scope().yaw(), yaw);
        let atmosphere = self.firing().atmosphere();
        builder.atmosphere = atmosphere_with(
            builder.atmosphere,
            atmosphere.temperature(),
            atmosphere.pressure(),
            atmosphere.humidity(),
        );
        let wind = self.firing().wind();
        builder.wind = wind_with(builder.wind, wind.speed(), wind.angle());
        let shooter = self.firing().shooter();
        builder.shooter = shooter_with(
            builder.shooter,
            shooter.lattitude(),
            shooter.bearing(),
            shooter.angle(),
            shooter.gravity(),
        );
        SimulationConfig::new(builder)
    }

    /// The target that these options zero on.
    pub open spec fn target_spec(self) -> Target {
        Target {
            distance: self.zeroing.zeroing_target.zeroing_target_distance,
            height: self.zeroing.zeroing_target.zeroing_target_height,
            offset: self.zeroing.zeroing_target.zeroing_target_offset,
            tolerance: self.zeroing.zeroing_target.zeroing_target_tolerance,
        }
    }

    /// The corrections to the sight's pitch and yaw that a run fires with:
    /// none on a flat run, and else those that zero the zeroing simulation
    /// on the target.
    pub open spec fn angles_spec(self) -> Result<(Angle, Angle), Error> {
        if self.flags.flat {
            Ok((Angle { nanoradians: 0 }, Angle { nanoradians: 0 }))
        } else {
            let zeroing = self.zero_scenario_spec(self.shared_params_spec());
            match crate::config::first_violation(zeroing) {
                Some(e) => Err(Error::Config(e)),
                None => match zero_spec(zeroing, self.target_spec()) {
                    Ok(angles) => Ok(angles),
                    Err(e) => Err(Error::Zero(e)),
                },
            }
        }
    }

    /// Zeroes a simulation on the target of these options.
    pub fn try_zero(&self, simulation: &SimulationConfig) -> (r: Result<(Angle, Angle), ZeroError>)
        ensures
            r == zero_spec(simulation@, self.target_spec()),
    {
        let target = Target {
            distance: self.zeroing().target().distance(),
            height: self.zeroing().target().height(),
            offset: self.zeroing().target().offset(),
            tolerance: self.zeroing().target().tolerance(),
        };
        find_zero_angles(simulation, &target)
    }

    /// Draws the range table of these options from a trajectory.
    pub fn table_gen(&self, trajectory: &mut Trajectory) -> (rows: Vec<Packet>)
        ensures
            final(trajectory)@.parameters == old(trajectory)@.parameters,
            final(trajectory)@.pitch == old(trajectory)@.pitch,
            final(trajectory)@.yaw == old(trajectory)@.yaw,
            final(trajectory)@.steps >= old(trajectory)@.steps,
            ({
                let picked = sampling(
                    packets_between(
                        old(trajectory)@.parameters,
                        old(trajectory)@.pitch,
                        old(trajectory)@.yaw,
                        old(trajectory)@.steps,
                        (final(trajectory)@.steps - old(trajectory)@.steps) as nat,
                    ),
                    self.table.table_start.nanometers,
                    self.table.table_step.nanometers,
                    plus(
                        self.table.table_end.nanometers as int,
                        self.table.table_step.nanometers as int,
                    ),
                );
                &&& rows@ == picked.rows
                &&& (!picked.open || !has_packet(
                    final(trajectory)@.parameters,
                    final(trajectory)@.pitch,
                    final(trajectory)@.yaw,
                    final(trajectory)@.steps,
                ))
            }),
    {
        let start = self.table().start();
        let end = self.table().end();
        let step = self.table().step();
        range_table(trajectory, start, end, step)
    }

    /// Whether `rows` is the range table of these options for the firing
    /// simulation with the corrections `angles`: the rows picked from the
    /// flight's snapshots, from the muzzle to the first snapshot past the
    /// table or to the end of the flight.
    pub open spec fn is_table(self, angles: (Angle, Angle), rows: Seq<Packet>) -> bool {
        let firing = self.firing_scenario_spec(self.shared_params_spec(), angles.0, angles.1);
        let level = Angle { nanoradians: 0 };
        exists|count: nat|
            {
                let picked = #[trigger] sampling(
                    packets_between(firing, level, level, 0, count),
                    self.table.table_start.nanometers,
                    self.table.table_step.nanometers,
                    plus(
                        self.table.table_end.nanometers as int,
                        self.table.table_step.nanometers as int,
                    ),
                );
                &&& rows == picked.rows
                &&& (!picked.open || !has_packet(firing, level, level, count))
            }
    }

    /// Runs these options: zeroes unless the run is flat, then fires with
    /// the corrections found and draws the range table.  Fails where the
    /// parameters of the zeroing break a rule, where the zeroing fails, and
    /// where the parameters of the firing break a rule, in this order.
    #[verifier::rlimit(30)]
    pub fn run(&self) -> (r: Result<Vec<Packet>, Error>)
        ensures
            match self.angles_spec() {
                Err(e) => r == Err::<Vec<Packet>, Error>(e),
                Ok(angles) => match crate::config::first_violation(
                    self.firing_scenario_spec(self.shared_params_spec(), angles.0, angles.1),
                ) {
                    Some(e) => r == Err::<Vec<Packet>, Error>(Error::Config(e)),
                    None => r matches Ok(rows) && self.is_table(angles, rows@),
                },
            },
    {
        let mut angles = (Angle { nanoradians: 0 }, Angle { nanoradians: 0 });
        if !self.flags().flat() {
            let zero_builder = self.shared_params();
            let zero_simulation = match self.zero_scenario(zero_builder) {
                Ok(simulation) => simulation,
                Err(e) => {
                    return Err(Error::Config(e));
                },
            };
            angles = match self.try_zero(&zero_simulation) {
                Ok(found) => found,
                Err(e) => {
                    return Err(Error::Zero(e));
                },
            };
        }
        let firing_builder = self.shared_params();
        let firing_simulation = match self.firing_scenario(firing_builder, angles.0, angles.1) {
            Ok(simulation) => simulation,
            Err(e) => {
                return Err(Error::Config(e));
            },
        };
        let level = Angle { nanoradians: 0 };
        let mut trajectory = Trajectory::new(&firing_simulation, level, level);
        let rows = self.table_gen(&mut trajectory);
        proof {
            let count = trajectory@.steps;
            let firing = self.firing_scenario_spec(self.shared_params_spec(), angles.0, angles.1);
            let picked = sampling(
                packets_between(firing, level, level, 0, count),
                self.table.table_start.nanometers,
                self.table.table_step.nanometers,
                plus(
                    self.table.table_end.nanometers as int,
                    self.table.table_step.nanometers as int,
                ),
            );
            assert(rows@ == picked.rows && (!picked.open || !has_packet(
                firing,
                level,
                level,
                count,
            )));
        }
        Ok(rows)
    }

    /// Writes a range table with the adjustments that correct the shot,
    /// framed where these options ask for a pretty table, and with the
    /// tolerance of these options.
    pub fn print(&self, rows: &Vec<Packet>) -> (text: String)
        ensures
            text@ == table_spec(
                rows@,
                Layout::Adjusted,
                self.table.table_tolerance,
                self.flags.pretty,
                0,
            ),
    {
        let output_tolerance = self.table().tolerance();
        crate::report::print(rows, output_tolerance, self.flags().pretty())
    }
}

} // verus!
