//! The air: its density against the standard atmosphere and the speed of
//! sound in it.

use vstd::prelude::*;
use crate::config::{Atmosphere, ConfigError};
use crate::curve::{interpolate, lemma_value_at_in_range, value_at, well_formed};
use crate::fixed::{
    isqrt, isqrt_spec, lemma_scale_monotone, minus, mul_div_sat, saturate, scale, sub_sat, MICRO,
    NANO, PICO,
};
use crate::tables::VAPOR_TABLE;
use crate::units::Velocity;

verus! {

/// Temperature of the standard atmosphere, in millikelvin.
pub const STANDARD_TEMPERATURE: i64 = 288_150;

/// Pressure of the standard atmosphere, in millipascals.
pub const STANDARD_PRESSURE: i64 = 101_325_000;

/// One minus the ratio of the molar mass of water vapour to that of dry
/// air, in millionths.
pub const VAPOR_DEFICIT: i64 = 378_000;

/// The adiabatic index of air times its specific gas constant, in square
/// metres per second squared per kelvin, in thousandths.
pub const SOUND_FACTOR: i64 = 401_874;

/// Why an atmosphere is refused, if it is: the first broken rule among a
/// positive temperature, a positive pressure and a humidity between zero and
/// one.
pub open spec fn atmosphere_violation(a: Atmosphere) -> Option<ConfigError> {
    if a.temperature.millikelvin <= 0 {
        Some(ConfigError::NonPositiveTemperature)
    } else if a.pressure.millipascals <= 0 {
        Some(ConfigError::NonPositivePressure)
    } else if a.humidity.millionths < 0 || a.humidity.millionths > MICRO {
        Some(ConfigError::HumidityOutOfRange)
    } else {
        None
    }
}

/// Partial pressure of the water vapour in the air, in millipascals: the
/// relative humidity times the saturation pressure at the air's temperature.
pub open spec fn vapor_pressure_spec(a: Atmosphere) -> i64 {
    scale(
        a.humidity.millionths as int,
        value_at(VAPOR_TABLE@, a.temperature.millikelvin as int),
        MICRO as int,
    )
}

/// Density of the air relative to dry air at the standard temperature and
/// pressure, in billionths.  By the ideal gas law the density goes with
/// the pressure over the temperature; water vapour, lighter than the air it
/// displaces, takes `VAPOR_DEFICIT` of its partial pressure off the
/// pressure that counts.
pub open spec fn density_ratio_spec(a: Atmosphere) -> i64 {
    let deficit = scale(VAPOR_DEFICIT as int, vapor_pressure_spec(a) as int, MICRO as int);
    let effective = minus(a.pressure.millipascals as int, deficit as int);
    let cooled = scale(
        effective as int,
        STANDARD_TEMPERATURE as int,
        a.temperature.millikelvin as int,
    );
    scale(cooled as int, NANO as int, STANDARD_PRESSURE as int)
}

/// The speed of sound in nanometres per second: the square root of
/// `SOUND_FACTOR` times the absolute temperature.
pub open spec fn speed_of_sound_spec(a: Atmosphere) -> i64 {
    saturate(isqrt_spec(SOUND_FACTOR * a.temperature.millikelvin * PICO))
}

/// The vapour curve is well formed.
pub proof fn lemma_vapor_table_well_formed()
    ensures
        well_formed(VAPOR_TABLE@),
{
}

/// Dry air at the standard temperature and pressure has density ratio one.
pub proof fn lemma_standard_density()
    ensures
        density_ratio_spec(
            Atmosphere {
                temperature: crate::units::ThermodynamicTemperature {
                    millikelvin: STANDARD_TEMPERATURE,
                },
                pressure: crate::units::Pressure { millipascals: STANDARD_PRESSURE },
                humidity: crate::units::Numeric { millionths: 0 },
            },
        ) == NANO,
{
    let a = Atmosphere {
        temperature: crate::units::ThermodynamicTemperature { millikelvin: STANDARD_TEMPERATURE },
        pressure: crate::units::Pressure { millipascals: STANDARD_PRESSURE },
        humidity: crate::units::Numeric { millionths: 0 },
    };
    lemma_vapor_table_well_formed();
    let saturation = value_at(VAPOR_TABLE@, STANDARD_TEMPERATURE as int);
    assert(0 * saturation == 0);
    assert(vapor_pressure_spec(a) == 0);
    assert(scale(VAPOR_DEFICIT as int, 0, MICRO as int) == 0);
    assert(scale(STANDARD_PRESSURE as int, STANDARD_TEMPERATURE as int, STANDARD_TEMPERATURE as int)
        == STANDARD_PRESSURE);
    assert(scale(STANDARD_PRESSURE as int, NANO as int, STANDARD_PRESSURE as int) == NANO);
}

/// Humid air is no denser than drier air of the same temperature and
/// pressure.
#[verifier::rlimit(30)]
pub proof fn lemma_humid_air_is_lighter(dry: Atmosphere, humid: Atmosphere)
    requires
        atmosphere_violation(dry) is None,
        atmosphere_violation(humid) is None,
        dry.temperature == humid.temperature,
        dry.pressure == humid.pressure,
        dry.humidity.millionths <= humid.humidity.millionths,
    ensures
        density_ratio_spec(humid) <= density_ratio_spec(dry),
{
    lemma_vapor_table_well_formed();
    let t = dry.temperature.millikelvin as int;
    let saturation = value_at(VAPOR_TABLE@, t);
    lemma_value_at_in_range(VAPOR_TABLE@, t);
    lemma_scale_monotone(
        dry.humidity.millionths as int,
        humid.humidity.millionths as int,
        saturation,
        MICRO as int,
    );
    let less = vapor_pressure_spec(dry);
    let more = vapor_pressure_spec(humid);
    assert(scale(VAPOR_DEFICIT as int, less as int, MICRO as int) <= scale(
        VAPOR_DEFICIT as int,
        more as int,
        MICRO as int,
    )) by {
        assert(VAPOR_DEFICIT * less <= VAPOR_DEFICIT * more);
        crate::fixed::lemma_trunc_div_monotone(
            VAPOR_DEFICIT * less,
            VAPOR_DEFICIT * more,
            MICRO as int,
        );
    }
    let kept_dry = minus(
        dry.pressure.millipascals as int,
        scale(VAPOR_DEFICIT as int, less as int, MICRO as int) as int,
    );
    let kept_humid = minus(
        humid.pressure.millipascals as int,
        scale(VAPOR_DEFICIT as int, more as int, MICRO as int) as int,
    );
    lemma_scale_monotone(kept_humid as int, kept_dry as int, STANDARD_TEMPERATURE as int, t);
    lemma_scale_monotone(
        scale(kept_humid as int, STANDARD_TEMPERATURE as int, t) as int,
        scale(kept_dry as int, STANDARD_TEMPERATURE as int, t) as int,
        NANO as int,
        STANDARD_PRESSURE as int,
    );
}

/// Density of checked air relative to the standard atmosphere, in
/// billionths.
pub fn density_ratio_of(a: &Atmosphere) -> (ratio: i64)
    requires
        atmosphere_violation(*a) is None,
    ensures
        ratio == density_ratio_spec(*a),
{
    proof {
        lemma_vapor_table_well_formed();
    }
    let saturation = interpolate(&VAPOR_TABLE, a.temperature.millikelvin);
    let vapor = mul_div_sat(a.humidity.millionths, saturation, MICRO);
    let deficit = mul_div_sat(VAPOR_DEFICIT, vapor, MICRO);
    let effective = sub_sat(a.pressure.millipascals, deficit);
    let cooled = mul_div_sat(effective, STANDARD_TEMPERATURE, a.temperature.millikelvin);
    mul_div_sat(cooled, NANO, STANDARD_PRESSURE)
}

/// Density of the air relative to the standard atmosphere, in billionths.
/// Fails on a temperature or a pressure that is not positive and on a
/// humidity outside zero to one.
pub fn density_ratio(a: &Atmosphere) -> (r: Result<i64, ConfigError>)
    ensures
        match r {
            Ok(ratio) => atmosphere_violation(*a) is None && ratio == density_ratio_spec(*a),
            Err(e) => atmosphere_violation(*a) == Some(e),
        },
{
    if a.temperature.millikelvin <= 0 {
        Err(ConfigError::NonPositiveTemperature)
    } else if a.pressure.millipascals <= 0 {
        Err(ConfigError::NonPositivePressure)
    } else if a.humidity.millionths < 0 || a.humidity.millionths > MICRO {
        Err(ConfigError::HumidityOutOfRange)
    } else {
        Ok(density_ratio_of(a))
    }
}

/// The speed of sound in air of a positive temperature.
pub fn speed_of_sound(a: &Atmosphere) -> (c: Velocity)
    requires
        a.temperature.millikelvin > 0,
    ensures
        c.nm_per_s == speed_of_sound_spec(*a),
        c.nm_per_s > 0,
{
    let t: u128 = a.temperature.millikelvin as u128;
    assert(401_874 * t * 1_000_000_000_000 <= 0x7fff_ffff_ffff_ffff * 401_874
        * 1_000_000_000_000 && 401_874 * t * 1_000_000_000_000 >= 401_874_000_000_000_000)
        by (nonlinear_arith)
        requires
            1 <= t <= 0x7fff_ffff_ffff_ffff,
    ;
    let n: u128 = 401_874u128 * t * 1_000_000_000_000u128;
    let root = isqrt(n);
    proof {
        if root == 0 {
            assert(n < 1) by (nonlinear_arith)
                requires
                    n < (root + 1) * (root + 1),
                    root == 0,
            ;
        }
    }
    Velocity {
        nm_per_s: if root > i64::MAX as u64 {
            i64::MAX
        } else {
            root as i64
        },
    }
}

} // verus!
