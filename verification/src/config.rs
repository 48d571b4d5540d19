//! The configuration of one simulation: what is fired, through what air,
//! from where, and how finely time is stepped.

use vstd::prelude::*;
use crate::drag::DragTable;
use crate::fixed::MICRO;
use crate::units::{
    Acceleration, Angle, Length, Mass, Numeric, Pressure, ThermodynamicTemperature, Time, Velocity,
};

verus! {

/// The projectile and how it leaves the muzzle.
#[derive(Clone, Copy, Debug, PartialEq, Eq, Structural)]
pub struct Projectile {
    pub mass: Mass,
    pub caliber: Length,
    pub velocity: Velocity,
    /// Ballistic coefficient in pounds per square inch, against `drag_table`.
    pub bc: Numeric,
    pub drag_table: DragTable,
}

/// The air the projectile flies through.
#[derive(Clone, Copy, Debug, PartialEq, Eq, Structural)]
pub struct Atmosphere {
    pub temperature: ThermodynamicTemperature,
    pub pressure: Pressure,
    /// Relative humidity, from zero to one.
    pub humidity: Numeric,
}

/// A steady wind in the horizontal plane.  At direction zero the air moves
/// downrange; at a quarter turn it moves to the right of the line of sight.
#[derive(Clone, Copy, Debug, PartialEq, Eq, Structural)]
pub struct Wind {
    pub speed: Velocity,
    pub direction: Angle,
}

/// Where on Earth the shot is taken and how the line of sight lies.
#[derive(Clone, Copy, Debug, PartialEq, Eq, Structural)]
pub struct ShooterGeometry {
    pub latitude: Angle,
    /// Bearing of the line of sight, clockwise from north.
    pub bearing: Angle,
    /// Angle of the line of sight above the horizontal.
    pub incline: Angle,
    /// Magnitude of the local acceleration of gravity.
    pub gravity: Acceleration,
}

/// How the sight sits on the bore.
#[derive(Clone, Copy, Debug, PartialEq, Eq, Structural)]
pub struct ScopeGeometry {
    /// Height of the line of sight above the bore axis.
    pub height: Length,
    /// Distance of the line of sight to the right of the bore axis.
    pub offset: Length,
    /// Angle of the bore above the line of sight.
    pub pitch: Angle,
    /// Angle of the bore to the right of the line of sight.
    pub yaw: Angle,
    /// Cant of the sight about the line of sight.
    pub roll: Angle,
}

/// Everything a simulation is built from, not yet checked.
#[derive(Clone, Copy, Debug, PartialEq, Eq, Structural)]
pub struct Parameters {
    pub projectile: Projectile,
    pub atmosphere: Atmosphere,
    pub wind: Wind,
    pub shooter: ShooterGeometry,
    pub scope: ScopeGeometry,
    pub use_drag: bool,
    pub use_gravity: bool,
    pub use_coriolis: bool,
    pub time_step: Time,
}

/// Why a set of parameters is refused.
#[derive(Clone, Copy, Debug, PartialEq, Eq, Structural)]
pub enum ConfigError {
    NonPositiveTimeStep,
    NonPositiveBc,
    NonPositiveMass,
    NonPositiveCaliber,
    NonPositiveTemperature,
    NonPositivePressure,
    HumidityOutOfRange,
}

/// The first rule that a set of parameters breaks, in the order in which
/// the rules are checked; `None` where it breaks none.
pub open spec fn first_violation(p: Parameters) -> Option<ConfigError> {
    if p.time_step.nanoseconds <= 0 {
        Some(ConfigError::NonPositiveTimeStep)
    } else if p.projectile.bc.millionths <= 0 {
        Some(ConfigError::NonPositiveBc)
    } else if p.projectile.mass.nanograms <= 0 {
        Some(ConfigError::NonPositiveMass)
    } else if p.projectile.caliber.nanometers <= 0 {
        Some(ConfigError::NonPositiveCaliber)
    } else if p.atmosphere.temperature.millikelvin <= 0 {
        Some(ConfigError::NonPositiveTemperature)
    } else if p.atmosphere.pressure.millipascals <= 0 {
        Some(ConfigError::NonPositivePressure)
    } else if p.atmosphere.humidity.millionths < 0 || p.atmosphere.humidity.millionths > MICRO {
        Some(ConfigError::HumidityOutOfRange)
    } else {
        None
    }
}

/// Parameters are valid when the time step, the ballistic coefficient, the
/// mass, the caliber, the temperature and the pressure are positive and the
/// humidity lies between zero and one.
pub open spec fn valid_parameters(p: Parameters) -> bool {
    &&& p.time_step.nanoseconds > 0
    &&& p.projectile.bc.millionths > 0
    &&& p.projectile.mass.nanograms > 0
    &&& p.projectile.caliber.nanometers > 0
    &&& p.atmosphere.temperature.millikelvin > 0
    &&& p.atmosphere.pressure.millipascals > 0
    &&& 0 <= p.atmosphere.humidity.millionths <= MICRO
}

/// Parameters break no rule exactly when they are valid.
pub proof fn lemma_valid_iff_no_violation(p: Parameters)
    ensures
        valid_parameters(p) <==> first_violation(p) is None,
{
}

/// The standard parameters: a 220 grain, .308 inch projectile of ballistic
/// coefficient 0.5 against G7 at 3000 feet per second; air at 59 degrees
/// Fahrenheit, 29.92 inches of mercury and no humidity; no wind; a level
/// line of sight at the equator, bearing north, under standard gravity; a
/// sight 1.5 inches above the bore; every force enabled; steps of 50
/// microseconds.
pub open spec fn standard_parameters() -> Parameters {
    Parameters {
        projectile: Projectile {
            mass: Mass { nanograms: 14_255_760_200 },
            caliber: Length { nanometers: 7_823_200 },
            velocity: Velocity { nm_per_s: 914_400_000_000 },
            bc: Numeric { millionths: 500_000 },
            drag_table: DragTable::G7,
        },
        atmosphere: Atmosphere {
            temperature: ThermodynamicTemperature { millikelvin: 288_150 },
            pressure: Pressure { millipascals: 101_320_758 },
            humidity: Numeric { millionths: 0 },
        },
        wind: Wind { speed: Velocity { nm_per_s: 0 }, direction: Angle { nanoradians: 0 } },
        shooter: ShooterGeometry {
            latitude: Angle { nanoradians: 0 },
            bearing: Angle { nanoradians: 0 },
            incline: Angle { nanoradians: 0 },
            gravity: Acceleration { nm_per_s2: 9_806_650_000 },
        },
        scope: ScopeGeometry {
            height: Length { nanometers: 38_100_000 },
            offset: Length { nanometers: 0 },
            pitch: Angle { nanoradians: 0 },
            yaw: Angle { nanoradians: 0 },
            roll: Angle { nanoradians: 0 },
        },
        use_drag: true,
        use_gravity: true,
        use_coriolis: true,
        time_step: Time { nanoseconds: 50_000 },
    }
}

impl Parameters {
    /// The standard parameters.
    pub fn standard() -> (p: Parameters)
        ensures
            p == standard_parameters(),
            valid_parameters(p),
    {
        Parameters {
            projectile: Projectile {
                mass: Mass { nanograms: 14_255_760_200 },
                caliber: Length { nanometers: 7_823_200 },
                velocity: Velocity { nm_per_s: 914_400_000_000 },
                bc: Numeric { millionths: 500_000 },
                drag_table: DragTable::G7,
            },
            atmosphere: Atmosphere {
                temperature: ThermodynamicTemperature { millikelvin: 288_150 },
                pressure: Pressure { millipascals: 101_320_758 },
                humidity: Numeric { millionths: 0 },
            },
            wind: Wind { speed: Velocity { nm_per_s: 0 }, direction: Angle { nanoradians: 0 } },
            shooter: ShooterGeometry {
                latitude: Angle { nanoradians: 0 },
                bearing: Angle { nanoradians: 0 },
                incline: Angle { nanoradians: 0 },
                gravity: Acceleration { nm_per_s2: 9_806_650_000 },
            },
            scope: ScopeGeometry {
                height: Length { nanometers: 38_100_000 },
                offset: Length { nanometers: 0 },
                pitch: Angle { nanoradians: 0 },
                yaw: Angle { nanoradians: 0 },
                roll: Angle { nanoradians: 0 },
            },
            use_drag: true,
            use_gravity: true,
            use_coriolis: true,
            time_step: Time { nanoseconds: 50_000 },
        }
    }
}

/// A checked, immutable set of parameters.
#[derive(Clone, Copy, Debug)]
pub struct SimulationConfig {
    parameters: Parameters,
}

impl View for SimulationConfig {
    type V = Parameters;

    closed spec fn view(&self) -> Parameters {
        self.parameters
    }
}

impl SimulationConfig {
    #[verifier::type_invariant]
    spec fn well_formed(self) -> bool {
        valid_parameters(self.parameters)
    }

    /// Checks a set of parameters.  Returns them as a configuration where
    /// they break no rule, and else the first rule that they break.
    pub fn new(parameters: Parameters) -> (r: Result<SimulationConfig, ConfigError>)
        ensures
            match r {
                Ok(config) => first_violation(parameters) is None && config@ == parameters
                    && valid_parameters(parameters),
                Err(e) => first_violation(parameters) == Some(e),
            },
    {
        if parameters.time_step.nanoseconds <= 0 {
            Err(ConfigError::NonPositiveTimeStep)
        } else if parameters.projectile.bc.millionths <= 0 {
            Err(ConfigError::NonPositiveBc)
        } else if parameters.projectile.mass.nanograms <= 0 {
            Err(ConfigError::NonPositiveMass)
        } else if parameters.projectile.caliber.nanometers <= 0 {
            Err(ConfigError::NonPositiveCaliber)
        } else if parameters.atmosphere.temperature.millikelvin <= 0 {
            Err(ConfigError::NonPositiveTemperature)
        } else if parameters.atmosphere.pressure.millipascals <= 0 {
            Err(ConfigError::NonPositivePressure)
        } else if parameters.atmosphere.humidity.millionths < 0
            || parameters.atmosphere.humidity.millionths > MICRO {
            Err(ConfigError::HumidityOutOfRange)
        } else {
            Ok(SimulationConfig { parameters })
        }
    }

    /// The parameters that were checked.
    pub fn parameters(&self) -> (p: Parameters)
        ensures
            p == self@,
            valid_parameters(p),
    {
        proof {
            use_type_invariant(self);
        }
        self.parameters
    }
}

} // verus!
