use ballistic_solver::fixed::{add_sat, isqrt, magnitude, mul_div, mul_div_sat, neg_sat, sub_sat};
use ballistic_solver::trig::{cos, reduce, sin};
use ballistic_solver::units::Angle;
use ballistic_solver::vector::Vector3;

#[test]
fn mul_div_rounds_toward_zero() {
    assert_eq!(mul_div(7, 3, 2), Some(10));
    assert_eq!(mul_div(-7, 3, 2), Some(-10));
    assert_eq!(mul_div(7, -3, 2), Some(-10));
    assert_eq!(mul_div(-7, -3, 2), Some(10));
    assert_eq!(mul_div(0, 5, 3), Some(0));
}

#[test]
fn mul_div_keeps_the_high_bits_of_the_product() {
    assert_eq!(mul_div(i64::MAX, i64::MAX, i64::MAX), Some(i64::MAX));
    assert_eq!(mul_div(i64::MIN, i64::MAX, i64::MAX), Some(i64::MIN));
    assert_eq!(mul_div(4_000_000_000_000, 5_000_000_000_000, 1_000_000_000_000), Some(20_000_000_000_000));
}

#[test]
fn mul_div_reports_a_quotient_out_of_range() {
    assert_eq!(mul_div(i64::MAX, 2, 1), None);
    assert_eq!(mul_div(i64::MIN, -1, 1), None);
    assert_eq!(mul_div(i64::MIN, 1, 1), Some(i64::MIN));
}

#[test]
fn saturating_operations_stop_at_the_limits() {
    assert_eq!(mul_div_sat(i64::MAX, 2, 1), i64::MAX);
    assert_eq!(mul_div_sat(i64::MAX, -2, 1), i64::MIN);
    assert_eq!(mul_div_sat(-9, 5, 4), -11);
    assert_eq!(add_sat(i64::MAX, 1), i64::MAX);
    assert_eq!(add_sat(i64::MIN, -1), i64::MIN);
    assert_eq!(add_sat(2, 3), 5);
    assert_eq!(sub_sat(i64::MIN, 1), i64::MIN);
    assert_eq!(sub_sat(i64::MAX, -1), i64::MAX);
    assert_eq!(sub_sat(2, 3), -1);
    assert_eq!(neg_sat(i64::MIN), i64::MAX);
    assert_eq!(neg_sat(5), -5);
}

#[test]
fn magnitude_of_the_least_value() {
    assert_eq!(magnitude(i64::MIN), 9_223_372_036_854_775_808);
    assert_eq!(magnitude(-3), 3);
    assert_eq!(magnitude(3), 3);
}

#[test]
fn isqrt_is_the_floor_of_the_root() {
    assert_eq!(isqrt(0), 0);
    assert_eq!(isqrt(1), 1);
    assert_eq!(isqrt(3), 1);
    assert_eq!(isqrt(4), 2);
    assert_eq!(isqrt(99), 9);
    assert_eq!(isqrt(100), 10);
    assert_eq!(isqrt(u128::MAX), u64::MAX);
    assert_eq!(isqrt(836_127_360_000_000_000_000_000), 914_400_000_000);
}

#[test]
fn sine_and_cosine_at_known_angles() {
    assert_eq!(sin(Angle { nanoradians: 0 }), 0);
    assert_eq!(cos(Angle { nanoradians: 0 }), 1_000_000_000);
    assert_eq!(sin(Angle { nanoradians: 523_598_776 }), 500_000_001);
    assert_eq!(cos(Angle { nanoradians: 523_598_776 }), 866_025_404);
    assert_eq!(sin(Angle { nanoradians: 1_570_796_327 }), 1_000_000_000);
    assert_eq!(cos(Angle { nanoradians: 1_570_796_327 }), 0);
    assert_eq!(sin(Angle { nanoradians: -1_000_000 }), -1_000_000);
    assert_eq!(cos(Angle { nanoradians: 1_000_000 }), 999_999_500);
    assert_eq!(sin(Angle { nanoradians: 3_141_592_653 }), 1);
    assert_eq!(cos(Angle { nanoradians: 3_141_592_653 }), -1_000_000_000);
}

#[test]
fn angles_beyond_half_a_turn_are_reduced() {
    assert_eq!(reduce(7_000_000_000), 716_814_693);
    assert_eq!(reduce(-4_000_000_000), 2_283_185_307);
    assert_eq!(reduce(3_141_592_654), -3_141_592_653);
    assert_eq!(reduce(-3_141_592_654), 3_141_592_653);
    assert_eq!(sin(Angle { nanoradians: 7_000_000_000 }), 656_986_600);
    assert_eq!(cos(Angle { nanoradians: -4_000_000_000 }), -653_643_619);
}

#[test]
fn vector_operations() {
    let a = Vector3 { x: 3, y: -4, z: 12 };
    let b = Vector3 { x: 1, y: 1, z: 1 };
    assert_eq!(a.add(&b), Vector3 { x: 4, y: -3, z: 13 });
    assert_eq!(a.sub(&b), Vector3 { x: 2, y: -5, z: 11 });
    assert_eq!(a.scale(3, 2), Vector3 { x: 4, y: -6, z: 18 });
    assert_eq!(a.length(), 13);
    assert_eq!(Vector3::zero().length(), 0);
    assert_eq!(Vector3 { x: 0, y: 0, z: -1 }.length(), 1);
    assert_eq!(Vector3 { x: i64::MIN, y: i64::MIN, z: i64::MIN }.length(), i64::MAX);
    assert_eq!(Vector3 { x: i64::MAX, y: 0, z: 0 }.add(&b), Vector3 { x: i64::MAX, y: 1, z: 1 });
}
