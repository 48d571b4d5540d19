use ballistic_solver::atmosphere::density_ratio;
use ballistic_solver::config::{Parameters, SimulationConfig};
use ballistic_solver::fixed::mul_div_sat;
use ballistic_solver::force::Environment;
use ballistic_solver::integrator::{acceleration, step, State};
use ballistic_solver::measure::Adjustment;
use ballistic_solver::table::range_table;
use ballistic_solver::trajectory::{Packet, Trajectory};
use ballistic_solver::units::{
    Acceleration, Angle, Energy, Length, Numeric, Pressure, ThermodynamicTemperature, Time,
    Velocity, NM_PER_INCH, NM_PER_YARD,
};
use ballistic_solver::vector::Vector3;
use ballistic_solver::zero::{
    find_zero_angles, is_on_target, packet_at_distance, Target, ZeroError,
};

const LEVEL: Angle = Angle { nanoradians: 0 };

fn standard() -> SimulationConfig {
    SimulationConfig::new(Parameters::standard()).unwrap()
}

fn with(change: fn(&mut Parameters)) -> SimulationConfig {
    let mut p = Parameters::standard();
    change(&mut p);
    SimulationConfig::new(p).unwrap()
}

fn target(yards: i64, height: i64, offset: i64, tolerance: i64) -> Target {
    Target {
        distance: Length { nanometers: yards * NM_PER_YARD },
        height: Length { nanometers: height },
        offset: Length { nanometers: offset },
        tolerance: Length { nanometers: tolerance },
    }
}

fn crosswind(p: &mut Parameters) {
    p.shooter.latitude = Angle { nanoradians: 785_398_163 };
    p.shooter.bearing = Angle { nanoradians: 1_570_796_327 };
    p.shooter.incline = Angle { nanoradians: 174_532_925 };
    p.wind.speed = Velocity { nm_per_s: 4_470_400_000 };
    p.wind.direction = Angle { nanoradians: 1_570_796_327 };
}

#[test]
fn forces_on_the_standard_load_at_the_muzzle() {
    let environment = Environment::new(&standard());
    let v = Vector3 { x: 914_400_000_000, y: 0, z: 0 };
    assert_eq!(environment.parameters(), Parameters::standard());
    assert_eq!(environment.mach(&v), Numeric { millionths: 2_687_088 });
    assert_eq!(environment.drag_rate(&v), 324_698_072);
    assert_eq!(environment.drag(&v), Vector3 { x: -296_903_917_036, y: 0, z: 0 });
    assert_eq!(environment.coriolis(&v), Vector3 { x: 0, y: 0, z: 0 });
    assert_eq!(
        environment.acceleration(&v),
        Vector3 { x: -296_903_917_036, y: -9_806_650_000, z: 0 }
    );
    let state = State { position: Vector3::zero(), velocity: v, time: Time { nanoseconds: 0 } };
    assert_eq!(acceleration(&state, &standard()), environment.acceleration(&v));
}

#[test]
fn forces_under_wind_incline_and_rotation() {
    let environment = Environment::new(&with(crosswind));
    let v = Vector3 { x: 800_000_000_000, y: -5_000_000_000, z: 1_000_000_000 };
    assert_eq!(environment.mach(&v), Numeric { millionths: 2_350_976 });
    assert_eq!(environment.drag_rate(&v), 304_172_052);
    assert_eq!(
        environment.drag(&v),
        Vector3 { x: -243_337_641_600, y: 1_520_860_260, z: 1_055_598_689 }
    );
    assert_eq!(environment.coriolis(&v), Vector3 { x: 412_504, y: 82_500_872, z: 82_500_872 });
    assert_eq!(
        environment.acceleration(&v),
        Vector3 { x: -245_040_136_000, y: -8_054_303_828, z: 1_138_099_561 }
    );
}

#[test]
fn switched_off_forces_do_not_act() {
    let v = Vector3 { x: 800_000_000_000, y: -5_000_000_000, z: 1_000_000_000 };
    let no_drag = Environment::new(&with(|p| {
        crosswind(p);
        p.use_drag = false;
    }));
    assert_eq!(no_drag.drag(&v), Vector3 { x: 0, y: 0, z: 0 });
    let no_coriolis = Environment::new(&with(|p| {
        crosswind(p);
        p.use_coriolis = false;
    }));
    assert_eq!(no_coriolis.coriolis(&v), Vector3 { x: 0, y: 0, z: 0 });
    let nothing = Environment::new(&with(|p| {
        crosswind(p);
        p.use_drag = false;
        p.use_gravity = false;
        p.use_coriolis = false;
    }));
    assert_eq!(nothing.acceleration(&v), Vector3 { x: 0, y: 0, z: 0 });
}

#[test]
fn the_muzzle_lies_below_the_sight() {
    let environment = Environment::new(&standard());
    let state = environment.launch(Angle { nanoradians: 965_110 }, LEVEL);
    assert_eq!(state.position, Vector3 { x: 0, y: -38_100_000, z: 0 });
    assert_eq!(state.velocity, Vector3 { x: 914_399_574_804, y: 882_496_584, z: 0 });
    assert_eq!(state.time, Time { nanoseconds: 0 });
}

#[test]
fn a_canted_sight_turns_muzzle_and_bore() {
    let environment = Environment::new(&with(|p| {
        p.scope.roll = Angle { nanoradians: 174_532_925 };
        p.scope.offset = Length { nanometers: 12_700_000 };
        p.scope.pitch = Angle { nanoradians: 1_000_000 };
        p.scope.yaw = Angle { nanoradians: -2_000_000 };
    }));
    let state = environment.launch(Angle { nanoradians: 500_000 }, Angle { nanoradians: 250_000 });
    assert_eq!(state.position, Vector3 { x: 0, y: -35_315_844, z: -19_123_053 });
    assert_eq!(state.velocity, Vector3 { x: 914_397_571_355, y: 1_628_633_816, z: -1_337_711_754 });
}

#[test]
fn one_step_and_another() {
    let environment = Environment::new(&standard());
    let start = environment.launch(Angle { nanoradians: 965_110 }, LEVEL);
    let first = environment.step(&start);
    assert_eq!(
        first,
        State {
            position: Vector3 { x: 45_719_236, y: -38_055_901, z: 0 },
            velocity: Vector3 { x: 914_384_729_616, y: 881_991_925, z: -6 },
            time: Time { nanoseconds: 50_000 },
        }
    );
    let second = environment.step(&first);
    assert_eq!(
        second,
        State {
            position: Vector3 { x: 91_437_730, y: -38_011_827, z: 0 },
            velocity: Vector3 { x: 914_369_884_795, y: 881_487_274, z: -12 },
            time: Time { nanoseconds: 100_000 },
        }
    );
    let long = step(&start, &standard(), Time { nanoseconds: 1_000_000 });
    assert_eq!(
        long,
        State {
            position: Vector3 { x: 914_102_671, y: -37_227_597, z: 0 },
            velocity: Vector3 { x: 914_102_671_026, y: 872_403_390, z: -128 },
            time: Time { nanoseconds: 1_000_000 },
        }
    );
    assert_eq!(environment.advance(&start, Time { nanoseconds: 1_000_000 }), long);
}

#[test]
fn two_runs_give_the_same_snapshots() {
    let config = with(crosswind);
    let mut one = Trajectory::new(&config, Angle { nanoradians: 1_000_000 }, Angle { nanoradians: -300 });
    let mut other = Trajectory::new(&config, Angle { nanoradians: 1_000_000 }, Angle { nanoradians: -300 });
    for _ in 0..5_000 {
        let a = one.next();
        let b = other.next();
        assert!(a.is_some());
        assert_eq!(a, b);
    }
    assert_eq!(one.state(), other.state());
}

#[test]
fn time_and_distance_never_run_backward() {
    let mut trajectory = Trajectory::new(&with(crosswind), Angle { nanoradians: 2_000_000 }, LEVEL);
    let mut last = trajectory.next().unwrap();
    for _ in 0..20_000 {
        let next = trajectory.next().unwrap();
        assert_eq!(next.time.nanoseconds, last.time.nanoseconds + 50_000);
        assert!(next.distance.nanometers >= last.distance.nanometers);
        last = next;
    }
}

#[test]
fn without_lateral_forces_the_windage_is_zero() {
    let config = with(|p| p.use_coriolis = false);
    let (pitch, yaw) = find_zero_angles(&config, &target(100, 0, 0, 25_400)).unwrap();
    assert_eq!((pitch, yaw), (Angle { nanoradians: 965_110 }, LEVEL));
    let mut trajectory = Trajectory::new(&config, pitch, yaw);
    let rows = range_table(
        &mut trajectory,
        Length { nanometers: 0 },
        Length { nanometers: 500 * NM_PER_YARD },
        Length { nanometers: 100 * NM_PER_YARD },
    );
    assert_eq!(rows.len(), 6);
    for row in &rows {
        assert_eq!(row.windage.nanometers, 0);
    }
    let mut every = Trajectory::new(&config, pitch, yaw);
    for _ in 0..10_000 {
        assert_eq!(every.next().unwrap().windage.nanometers, 0);
    }
}

#[test]
fn a_canted_sight_breaks_the_symmetry() {
    let config = with(|p| {
        p.use_coriolis = false;
        p.scope.roll = Angle { nanoradians: 174_532_925 };
    });
    let mut trajectory = Trajectory::new(&config, LEVEL, LEVEL);
    assert_eq!(trajectory.next().unwrap().windage.nanometers, -6_615_995);
}

#[test]
fn under_drag_alone_the_speed_only_falls() {
    let config = with(|p| {
        p.use_gravity = false;
        p.use_coriolis = false;
    });
    let mut trajectory = Trajectory::new(&config, LEVEL, LEVEL);
    let mut last = trajectory.next().unwrap().velocity.nm_per_s;
    assert_eq!(last, 914_400_000_000);
    for _ in 0..2_999 {
        let speed = trajectory.next().unwrap().velocity.nm_per_s;
        assert!(speed <= last);
        last = speed;
    }
    assert_eq!(last, 871_399_657_551);
}

#[test]
fn the_standard_step_is_short_enough_for_any_drag() {
    let p = Parameters::standard();
    let ratio = density_ratio(&p.atmosphere).unwrap();
    assert!(ratio >= 0);
    let factor = mul_div_sat(684_222_997, 1_000_000, p.projectile.bc.millionths);
    let weighted = mul_div_sat(ratio, 1_000_000_000, 1_000_000);
    let per_meter = mul_div_sat(weighted, factor, 1_000_000_000);
    let limit = mul_div_sat(per_meter, 914_400_000_000, 1_000_000_000_000);
    assert_eq!(limit, 1_251_254_629_694);
    assert!((limit as i128) * (p.time_step.nanoseconds as i128) <= 2_000_000_000_000_000_000);
    let environment = Environment::new(&standard());
    let rate = environment.drag_rate(&Vector3 { x: 914_400_000_000, y: 0, z: 0 });
    assert!(0 <= rate && rate <= limit);
}

#[test]
fn without_drag_the_drop_is_that_of_free_fall() {
    let config = with(|p| {
        p.use_drag = false;
        p.use_coriolis = false;
    });
    let distance = Length { nanometers: 50 * NM_PER_YARD };
    let hit = packet_at_distance(&config, LEVEL, LEVEL, distance).unwrap();
    assert_eq!(hit.distance.nanometers, 45_720_000_000);
    assert_eq!(hit.time.nanoseconds, 50_000_000);
    assert_eq!(hit.elevation.nanometers, -50_370_059);
    // height of the muzzle less half of gravity times the time of flight squared
    let g = 9.806_65_f64;
    let t = 45.72_f64 / 914.4_f64;
    let closed_form = -0.0381_f64 - 0.5 * g * t * t;
    let simulated = hit.elevation.nanometers as f64 / 1e9;
    assert!((simulated - closed_form).abs() < 20e-6);
}

#[test]
fn the_standard_load_zeroes_at_one_hundred_yards() {
    let config = standard();
    let aim = target(100, 0, 0, NM_PER_INCH / 1000);
    let (pitch, yaw) = find_zero_angles(&config, &aim).unwrap();
    assert_eq!(pitch, Angle { nanoradians: 965_110 });
    assert_eq!(yaw, LEVEL);
    let hit = packet_at_distance(&config, pitch, yaw, aim.distance).unwrap();
    assert!(hit.elevation.nanometers.abs() <= 25_400);
    assert!(hit.windage.nanometers.abs() <= 25_400);
    assert!(is_on_target(&hit, &aim));
    assert_eq!(
        hit,
        Packet {
            time: Time { nanoseconds: 101_700_000 },
            distance: Length { nanometers: 91_482_292_036 },
            elevation: Length { nanometers: -16 },
            windage: Length { nanometers: 0 },
            velocity: Velocity { nm_per_s: 884_909_184_248 },
            energy: Energy { microjoules: 5_581_588_186 },
            mach: Numeric { millionths: 2_600_425 },
            acceleration: Acceleration { nm_per_s2: 283_350_739_358 },
        }
    );
}

#[test]
fn the_firing_trajectory_starts_a_sight_height_low() {
    let config = standard();
    let (pitch, yaw) = find_zero_angles(&config, &target(100, 0, 0, NM_PER_INCH / 1000)).unwrap();
    let mut trajectory = Trajectory::new(&config, pitch, yaw);
    assert!(trajectory.in_flight());
    let first = trajectory.next().unwrap();
    assert_eq!(
        first,
        Packet {
            time: Time { nanoseconds: 0 },
            distance: Length { nanometers: 0 },
            elevation: Length { nanometers: -1500 * NM_PER_INCH / 1000 },
            windage: Length { nanometers: 0 },
            velocity: Velocity { nm_per_s: 914_400_000_657 },
            energy: Energy { microjoules: 5_959_815_578 },
            mach: Numeric { millionths: 2_687_088 },
            acceleration: Acceleration { nm_per_s2: 297_075_287_687 },
        }
    );
}

#[test]
fn zeroing_under_wind_and_rotation() {
    let config = with(|p| {
        p.shooter.latitude = Angle { nanoradians: 785_398_163 };
        p.shooter.bearing = Angle { nanoradians: 1_570_796_327 };
        p.wind.speed = Velocity { nm_per_s: 4_470_400_000 };
        p.wind.direction = Angle { nanoradians: 1_570_796_327 };
    });
    let aim = target(200, 0, 0, NM_PER_INCH / 1000);
    let (pitch, yaw) = find_zero_angles(&config, &aim).unwrap();
    assert_eq!(pitch, Angle { nanoradians: 1_319_118 });
    assert_eq!(yaw, Angle { nanoradians: -174_877 });
    let hit = packet_at_distance(&config, pitch, yaw, aim.distance).unwrap();
    assert_eq!(hit.elevation.nanometers, 104);
    assert_eq!(hit.windage.nanometers, -113);
}

#[test]
fn zeroing_on_a_target_off_the_line_of_sight() {
    let config = standard();
    let aim = target(300, 2 * NM_PER_INCH, -NM_PER_INCH, NM_PER_INCH / 100);
    let (pitch, yaw) = find_zero_angles(&config, &aim).unwrap();
    assert_eq!(pitch, Angle { nanoradians: 2_044_587 });
    assert_eq!(yaw, Angle { nanoradians: -92_608 });
    let hit = packet_at_distance(&config, pitch, yaw, aim.distance).unwrap();
    assert_eq!(hit.elevation.nanometers, 50_817_798);
    assert_eq!(hit.windage.nanometers, -25_408_086);
    assert!(is_on_target(&hit, &aim));
}

#[test]
fn zeroing_fails_in_each_of_its_ways() {
    let config = standard();
    assert_eq!(find_zero_angles(&config, &target(0, 0, 0, 25_400)), Err(ZeroError::NonPositiveDistance));
    assert_eq!(find_zero_angles(&config, &target(-1, 0, 0, 25_400)), Err(ZeroError::NonPositiveDistance));
    assert_eq!(find_zero_angles(&config, &target(100, 0, 0, -1)), Err(ZeroError::DidNotConverge));
    assert_eq!(find_zero_angles(&config, &target(100, 0, 0, 0)), Err(ZeroError::DidNotConverge));
    let backward = with(|p| p.projectile.velocity = Velocity { nm_per_s: -914_400_000_000 });
    assert_eq!(find_zero_angles(&backward, &target(100, 0, 0, 25_400)), Err(ZeroError::TargetNotReached));
    let at_rest = with(|p| p.projectile.velocity = Velocity { nm_per_s: 0 });
    assert_eq!(find_zero_angles(&at_rest, &target(100, 0, 0, 25_400)), Err(ZeroError::TargetNotReached));
    let stalls = with(|p| p.projectile.bc = Numeric { millionths: 1 });
    assert_eq!(find_zero_angles(&stalls, &target(100, 0, 0, 25_400)), Err(ZeroError::TargetNotReached));
}

#[test]
fn a_stalled_projectile_ends_the_flight() {
    let config = with(|p| {
        p.projectile.bc = Numeric { millionths: 1 };
        p.use_gravity = false;
        p.use_coriolis = false;
    });
    let mut trajectory = Trajectory::new(&config, LEVEL, LEVEL);
    assert!(trajectory.next().is_some());
    assert_eq!(trajectory.state().velocity, Vector3 { x: -6_508_197_944_763, y: 0, z: 0 });
    assert!(!trajectory.in_flight());
    assert_eq!(trajectory.next(), None);
    assert_eq!(trajectory.next(), None);
    assert_eq!(packet_at_distance(&config, LEVEL, LEVEL, Length { nanometers: NM_PER_YARD }), None);
}

#[test]
fn a_projectile_at_rest_never_flies() {
    let config = with(|p| p.projectile.velocity = Velocity { nm_per_s: 0 });
    let mut trajectory = Trajectory::new(&config, LEVEL, LEVEL);
    assert!(!trajectory.in_flight());
    assert_eq!(trajectory.next(), None);
}

#[test]
fn the_range_table_of_the_standard_load() {
    let config = with(|p| p.scope.pitch = Angle { nanoradians: 965_110 });
    let mut trajectory = Trajectory::new(&config, LEVEL, LEVEL);
    let rows = range_table(
        &mut trajectory,
        Length { nanometers: 0 },
        Length { nanometers: 1000 * NM_PER_YARD },
        Length { nanometers: 100 * NM_PER_YARD },
    );
    let distances: Vec<i64> = rows.iter().map(|row| row.distance.nanometers).collect();
    assert_eq!(
        distances,
        vec![
            0,
            91_482_292_036,
            182_904_138_980,
            274_330_884_920,
            365_771_876_464,
            457_227_888_566,
            548_653_329_520,
            640_107_728_946,
            731_529_487_086,
            822_990_378_111,
            914_414_090_667,
        ]
    );
    let last = rows[10];
    assert_eq!(last.time.nanoseconds, 1_193_900_000);
    assert_eq!(last.elevation.nanometers, -5_389_797_398);
    assert_eq!(last.windage.nanometers, 254_746);
    assert_eq!(last.velocity.nm_per_s, 642_231_321_432);
    assert_eq!(last.energy.microjoules, 2_939_973_054);
    assert_eq!(last.mach.millionths, 1_887_283);
    assert_eq!(last.acceleration.nm_per_s2, 172_346_797_742);
}

#[test]
fn a_range_table_from_the_middle_of_the_flight() {
    let config = with(|p| p.scope.pitch = Angle { nanoradians: 965_110 });
    let mut trajectory = Trajectory::new(&config, LEVEL, LEVEL);
    let rows = range_table(
        &mut trajectory,
        Length { nanometers: 150 * NM_PER_YARD },
        Length { nanometers: 400 * NM_PER_YARD },
        Length { nanometers: 50 * NM_PER_YARD },
    );
    let picked: Vec<(i64, i64, i64)> = rows
        .iter()
        .map(|row| (row.distance.nanometers, row.elevation.nanometers, row.time.nanoseconds))
        .collect();
    assert_eq!(
        picked,
        vec![
            (137_160_955_611, -19_787_985, 153_750_000),
            (182_904_138_980, -66_677_654, 206_750_000),
            (228_605_578_314, -141_501_840, 260_600_000),
            (274_330_884_920, -245_313_482, 315_400_000),
            (320_059_508_388, -379_095_732, 371_150_000),
            (365_771_876_464, -543_825_733, 427_850_000),
        ]
    );
}

#[test]
fn a_range_table_stops_one_step_past_its_end() {
    let config = with(|p| p.scope.pitch = Angle { nanoradians: 965_110 });
    let mut trajectory = Trajectory::new(&config, LEVEL, LEVEL);
    let yard = Length { nanometers: NM_PER_YARD };
    let rows = range_table(&mut trajectory, Length { nanometers: 0 }, yard, yard);
    let distances: Vec<i64> = rows.iter().map(|row| row.distance.nanometers).collect();
    assert_eq!(distances, vec![0, 959_948_106]);
    assert!(trajectory.state().position.x > 2 * NM_PER_YARD);
    assert!(trajectory.in_flight());
}

#[test]
fn a_range_table_of_a_flight_that_never_starts_is_empty() {
    let config = with(|p| p.projectile.velocity = Velocity { nm_per_s: 0 });
    let mut trajectory = Trajectory::new(&config, LEVEL, LEVEL);
    let yard = Length { nanometers: NM_PER_YARD };
    assert!(range_table(&mut trajectory, Length { nanometers: 0 }, yard, yard).is_empty());
}

#[test]
fn adjustments_point_back_to_the_line_of_sight() {
    let tolerance = Length { nanometers: 127_000 };
    let elevation = |n: i64| Adjustment::Elevation(Length { nanometers: n }).adjustment(tolerance);
    let windage = |n: i64| Adjustment::Windage(Length { nanometers: n }).adjustment(tolerance);
    assert_eq!(elevation(127_001), 'D');
    assert_eq!(elevation(127_000), '*');
    assert_eq!(elevation(0), '*');
    assert_eq!(elevation(-127_000), '*');
    assert_eq!(elevation(-127_001), 'U');
    assert_eq!(windage(127_001), 'L');
    assert_eq!(windage(127_000), '*');
    assert_eq!(windage(-127_000), '*');
    assert_eq!(windage(-127_001), 'R');
    assert_eq!(elevation(i64::MAX), 'D');
    assert_eq!(elevation(i64::MIN), 'U');
    let least = Length { nanometers: i64::MIN };
    assert_eq!(Adjustment::Elevation(least).adjustment(least), 'U');
    assert_eq!(Adjustment::Windage(Length { nanometers: 0 }).adjustment(least), 'L');
}

#[test]
fn deviations_as_angles() {
    let packet = Packet {
        time: Time { nanoseconds: 206_750_000 },
        distance: Length { nanometers: 182_904_138_980 },
        elevation: Length { nanometers: -66_677_654 },
        windage: Length { nanometers: 616 },
        velocity: Velocity { nm_per_s: 855_884_186_228 },
        energy: Energy { microjoules: 5_221_441_180 },
        mach: Numeric { millionths: 2_515_131 },
        acceleration: Acceleration { nm_per_s2: 269_692_676_465 },
    };
    let tolerance = Length { nanometers: 127_000 };
    assert_eq!(packet.vertical_angle(tolerance), Angle { nanoradians: -364_549 });
    assert_eq!(packet.vertical_angle(tolerance).micro_minutes(), -1_253_227);
    assert_eq!(packet.horizontal_angle(tolerance), Angle { nanoradians: 0 });
    assert_eq!(packet.horizontal_angle(Length { nanometers: 615 }), Angle { nanoradians: 3 });
    assert_eq!(packet.vertical_adjustment(tolerance), 'U');
    assert_eq!(packet.horizontal_adjustment(tolerance), '*');
    assert_eq!(packet.horizontal_adjustment(Length { nanometers: 615 }), 'L');
    assert_eq!(packet.angle(), Angle { nanoradians: 364_549 });
    assert_eq!(packet.distance(), packet.distance);
    assert_eq!(packet.elevation(), packet.elevation);
    assert_eq!(packet.windage(), packet.windage);
    assert_eq!(packet.velocity(), packet.velocity);
    assert_eq!(packet.energy(), packet.energy);
    assert_eq!(packet.mach(), packet.mach);
    assert_eq!(packet.time(), packet.time);
    let muzzle = Packet { distance: Length { nanometers: 0 }, ..packet };
    assert_eq!(muzzle.vertical_angle(tolerance), Angle { nanoradians: 0 });
    assert_eq!(muzzle.angle(), Angle { nanoradians: 0 });
}

#[test]
fn thinner_air_and_less_gravity_are_taken_from_the_parameters() {
    let thin = Environment::new(&with(|p| {
        p.atmosphere.pressure = Pressure { millipascals: 50_662_500 };
        p.atmosphere.temperature = ThermodynamicTemperature { millikelvin: 288_150 };
        p.shooter.gravity = Acceleration { nm_per_s2: 1_620_000_000 };
    }));
    let v = Vector3 { x: 914_400_000_000, y: 0, z: 0 };
    assert_eq!(thin.drag_rate(&v), 162_355_833);
    assert_eq!(thin.acceleration(&v).y, -1_620_000_000);
}
