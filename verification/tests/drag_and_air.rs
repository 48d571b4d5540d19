use ballistic_solver::atmosphere::{density_ratio, density_ratio_of, speed_of_sound};
use ballistic_solver::config::{Atmosphere, ConfigError};
use ballistic_solver::curve::interpolate;
use ballistic_solver::drag::DragTable;
use ballistic_solver::error::Error;
use ballistic_solver::tables::{
    G1_TABLE, G2_TABLE, G5_TABLE, G6_TABLE, G7_TABLE, G8_TABLE, GI_TABLE, GS_TABLE, VAPOR_TABLE,
};
use ballistic_solver::units::{Numeric, Pressure, ThermodynamicTemperature};

fn air(millikelvin: i64, millipascals: i64, humidity: i64) -> Atmosphere {
    Atmosphere {
        temperature: ThermodynamicTemperature { millikelvin },
        pressure: Pressure { millipascals },
        humidity: Numeric { millionths: humidity },
    }
}

fn cd(table: DragTable, mach: i64) -> i64 {
    table.coefficient(Numeric { millionths: mach }).millionths
}

#[test]
fn lookups_below_the_first_breakpoint_take_the_first_coefficient() {
    assert_eq!(cd(DragTable::G1, 0), 262_900);
    assert_eq!(cd(DragTable::G1, -1), 262_900);
    assert_eq!(cd(DragTable::G1, i64::MIN), 262_900);
    assert_eq!(cd(DragTable::G2, -5_000_000), 230_300);
    assert_eq!(cd(DragTable::G5, -1), 171_000);
    assert_eq!(cd(DragTable::G6, -1), 261_700);
    assert_eq!(cd(DragTable::G7, -1), 119_800);
    assert_eq!(cd(DragTable::G8, -1), 210_500);
    assert_eq!(cd(DragTable::GI, -1), 228_200);
    assert_eq!(cd(DragTable::GS, -1), 466_200);
}

#[test]
fn lookups_above_the_last_breakpoint_take_the_last_coefficient() {
    assert_eq!(cd(DragTable::G1, 5_000_000), 498_800);
    assert_eq!(cd(DragTable::G1, 5_000_001), 498_800);
    assert_eq!(cd(DragTable::G1, i64::MAX), 498_800);
    assert_eq!(cd(DragTable::G2, 50_000_000), 164_800);
    assert_eq!(cd(DragTable::G5, 6_000_000), 228_000);
    assert_eq!(cd(DragTable::G6, 6_000_000), 157_400);
    assert_eq!(cd(DragTable::G7, 6_000_000), 161_800);
    assert_eq!(cd(DragTable::G8, 6_000_000), 171_300);
    assert_eq!(cd(DragTable::GI, 6_000_000), 408_200);
    assert_eq!(cd(DragTable::GS, 4_000_001), 928_000);
}

#[test]
fn lookups_between_breakpoints_interpolate() {
    assert_eq!(cd(DragTable::G1, 625_000), 206_675);
    assert_eq!(cd(DragTable::G7, 2_687_088), 259_498);
    assert_eq!(cd(DragTable::G7, 962_500), 252_350);
}

#[test]
fn lookups_at_breakpoints_take_their_coefficient() {
    assert_eq!(cd(DragTable::G1, 600_000), 203_400);
    assert_eq!(cd(DragTable::G1, 700_000), 216_500);
    assert_eq!(cd(DragTable::GS, 1_000_000), 814_000);
    assert_eq!(cd(DragTable::G7, 1_000_000), 380_300);
}

#[test]
fn every_curve_rises_in_mach() {
    fn rising(points: &[(i64, i64)]) -> bool {
        points.windows(2).all(|w| w[0].0 < w[1].0)
    }
    assert!(rising(&G1_TABLE));
    assert!(rising(&G2_TABLE));
    assert!(rising(&G5_TABLE));
    assert!(rising(&G6_TABLE));
    assert!(rising(&G7_TABLE));
    assert!(rising(&G8_TABLE));
    assert!(rising(&GI_TABLE));
    assert!(rising(&GS_TABLE));
    assert!(rising(&VAPOR_TABLE));
}

#[test]
fn interpolation_on_a_small_curve() {
    let curve = [(10, 100), (20, 50), (40, 60)];
    assert_eq!(interpolate(&curve, 0), 100);
    assert_eq!(interpolate(&curve, 10), 100);
    assert_eq!(interpolate(&curve, 13), 85);
    assert_eq!(interpolate(&curve, 15), 75);
    assert_eq!(interpolate(&curve, 20), 50);
    assert_eq!(interpolate(&curve, 27), 53);
    assert_eq!(interpolate(&curve, 40), 60);
    assert_eq!(interpolate(&curve, 41), 60);
    assert_eq!(interpolate(&[(5, 7)], 9), 7);
    assert_eq!(interpolate(&[(5, 7)], 1), 7);
}

#[test]
fn family_names_are_read_in_either_case() {
    assert_eq!(DragTable::from_str("G1"), Ok(DragTable::G1));
    assert_eq!(DragTable::from_str("g2"), Ok(DragTable::G2));
    assert_eq!(DragTable::from_str("G5"), Ok(DragTable::G5));
    assert_eq!(DragTable::from_str("g6"), Ok(DragTable::G6));
    assert_eq!(DragTable::from_str("G7"), Ok(DragTable::G7));
    assert_eq!(DragTable::from_str("g8"), Ok(DragTable::G8));
    assert_eq!(DragTable::from_str("gi"), Ok(DragTable::GI));
    assert_eq!(DragTable::from_str("Gi"), Ok(DragTable::GI));
    assert_eq!(DragTable::from_str("gS"), Ok(DragTable::GS));
    assert_eq!(DragTable::from_str("GS"), Ok(DragTable::GS));
}

#[test]
fn other_texts_are_no_family() {
    assert_eq!(DragTable::from_str("G3"), Err(Error::InvalidBcKind("G3".to_string())));
    assert_eq!(DragTable::from_str(""), Err(Error::InvalidBcKind("".to_string())));
    assert_eq!(DragTable::from_str("G"), Err(Error::InvalidBcKind("G".to_string())));
    assert_eq!(DragTable::from_str("G77"), Err(Error::InvalidBcKind("G77".to_string())));
    assert_eq!(DragTable::from_str("H7"), Err(Error::InvalidBcKind("H7".to_string())));
    assert_eq!(DragTable::from_str(" G7"), Err(Error::InvalidBcKind(" G7".to_string())));
    assert_eq!(DragTable::from_str("G\u{131}"), Err(Error::InvalidBcKind("G\u{131}".to_string())));
}

#[test]
fn standard_air_has_density_ratio_one() {
    assert_eq!(density_ratio(&air(288_150, 101_325_000, 0)), Ok(1_000_000_000));
    assert_eq!(density_ratio_of(&air(288_150, 101_325_000, 0)), 1_000_000_000);
}

#[test]
fn density_goes_with_pressure_over_temperature() {
    assert_eq!(density_ratio(&air(288_150, 101_320_758, 0)), Ok(999_958_134));
    assert_eq!(density_ratio(&air(253_150, 101_325_000, 0)), Ok(1_138_257_942));
}

#[test]
fn humid_air_is_lighter() {
    assert_eq!(density_ratio(&air(303_150, 101_325_000, 500_000)), Ok(942_992_982));
    assert_eq!(density_ratio(&air(308_150, 95_000_000, 1_000_000)), Ok(857_096_501));
    let dry = density_ratio(&air(303_150, 101_325_000, 0)).unwrap();
    let humid = density_ratio(&air(303_150, 101_325_000, 1_000_000)).unwrap();
    assert!(humid < dry);
}

#[test]
fn saturation_pressure_is_interpolated_and_clamped() {
    assert_eq!(interpolate(&VAPOR_TABLE, 288_150), 1_705_173);
    assert_eq!(interpolate(&VAPOR_TABLE, 293_650), 2_412_750);
    assert_eq!(interpolate(&VAPOR_TABLE, 100_000), 6_394);
    assert_eq!(interpolate(&VAPOR_TABLE, 400_000), 19_945_145);
}

#[test]
fn air_that_cannot_be_is_refused() {
    assert_eq!(density_ratio(&air(0, 101_325_000, 0)), Err(ConfigError::NonPositiveTemperature));
    assert_eq!(density_ratio(&air(-5, 101_325_000, 0)), Err(ConfigError::NonPositiveTemperature));
    assert_eq!(density_ratio(&air(288_150, 0, 0)), Err(ConfigError::NonPositivePressure));
    assert_eq!(density_ratio(&air(288_150, -1, 0)), Err(ConfigError::NonPositivePressure));
    assert_eq!(density_ratio(&air(288_150, 101_325_000, -1)), Err(ConfigError::HumidityOutOfRange));
    assert_eq!(
        density_ratio(&air(288_150, 101_325_000, 1_000_001)),
        Err(ConfigError::HumidityOutOfRange)
    );
    assert_eq!(density_ratio(&air(0, 0, -1)), Err(ConfigError::NonPositiveTemperature));
    assert_eq!(density_ratio(&air(1, 0, -1)), Err(ConfigError::NonPositivePressure));
    assert!(density_ratio(&air(288_150, 101_325_000, 1_000_000)).is_ok());
}

#[test]
fn speed_of_sound_goes_with_the_root_of_temperature() {
    assert_eq!(speed_of_sound(&air(288_150, 101_325_000, 0)).nm_per_s, 340_293_980_405);
    assert_eq!(speed_of_sound(&air(273_150, 101_325_000, 0)).nm_per_s, 331_318_401_390);
    assert_eq!(speed_of_sound(&air(1, 101_325_000, 0)).nm_per_s, 633_935_327);
}
