use ballistic_solver::report::{
    decimal, print, print_table, right_aligned, tabulate, write_row, write_table, zero_filled,
    Layout,
};
use ballistic_solver::trajectory::Packet;
use ballistic_solver::units::{Acceleration, Energy, Length, Numeric, Time, Velocity};

fn rows() -> Vec<Packet> {
    vec![
        Packet {
            time: Time { nanoseconds: 0 },
            distance: Length { nanometers: 0 },
            elevation: Length { nanometers: -38100000 },
            windage: Length { nanometers: 0 },
            velocity: Velocity { nm_per_s: 914400000657 },
            energy: Energy { microjoules: 5959815578 },
            mach: Numeric { millionths: 2687088 },
            acceleration: Acceleration { nm_per_s2: 297075287687 },
        },
        Packet {
            time: Time { nanoseconds: 101700000 },
            distance: Length { nanometers: 91482292036 },
            elevation: Length { nanometers: -16 },
            windage: Length { nanometers: 0 },
            velocity: Velocity { nm_per_s: 884909184248 },
            energy: Energy { microjoules: 5581588186 },
            mach: Numeric { millionths: 2600425 },
            acceleration: Acceleration { nm_per_s2: 283350739358 },
        },
        Packet {
            time: Time { nanoseconds: 206750000 },
            distance: Length { nanometers: 182904138980 },
            elevation: Length { nanometers: -66677654 },
            windage: Length { nanometers: 0 },
            velocity: Velocity { nm_per_s: 855884186228 },
            energy: Energy { microjoules: 5221441180 },
            mach: Numeric { millionths: 2515131 },
            acceleration: Acceleration { nm_per_s2: 269692676465 },
        },
        Packet {
            time: Time { nanoseconds: 315400000 },
            distance: Length { nanometers: 274330884920 },
            elevation: Length { nanometers: -245313482 },
            windage: Length { nanometers: 616 },
            velocity: Velocity { nm_per_s: 827332594283 },
            energy: Energy { microjoules: 4878885821 },
            mach: Numeric { millionths: 2431229 },
            acceleration: Acceleration { nm_per_s2: 256344621128 },
        },
    ]
}

fn off_to_the_left() -> Packet {
    Packet {
        time: Time { nanoseconds: 1193900000 },
        distance: Length { nanometers: 914414090667 },
        elevation: Length { nanometers: 5389797398 },
        windage: Length { nanometers: -254746000 },
        velocity: Velocity { nm_per_s: 642231321432 },
        energy: Energy { microjoules: 2939973054 },
        mach: Numeric { millionths: 1887283 },
        acceleration: Acceleration { nm_per_s2: 150000000000 },
    }
}

#[test]
fn decimals_are_rounded_to_the_nearest() {
    assert_eq!(decimal(5, 2, 0), "3");
    assert_eq!(decimal(-5, 2, 0), "-3");
    assert_eq!(decimal(1, 3, 5), "0.33333");
    assert_eq!(decimal(2, 3, 5), "0.66667");
    assert_eq!(decimal(149, 100, 1), "1.5");
    assert_eq!(decimal(150, 100, 1), "1.5");
    assert_eq!(decimal(144, 100, 1), "1.4");
    assert_eq!(decimal(999, 1000, 2), "1.00");
    assert_eq!(decimal(9995, 1000, 2), "10.00");
    assert_eq!(decimal(0, 7, 2), "0.00");
    assert_eq!(decimal(-1, 1000, 2), "-0.00");
    assert_eq!(decimal(1_005, 1000, 3), "1.005");
    assert_eq!(decimal(120_034, 1000, 3), "120.034");
}

#[test]
fn decimals_at_the_limits() {
    assert_eq!(decimal(i64::MIN, 1, 2), "-9223372036854775808.00");
    assert_eq!(decimal(i64::MAX, 1, 0), "9223372036854775807");
    assert_eq!(decimal(i64::MAX, i64::MAX, 3), "1.000");
    assert_eq!(decimal(1, i64::MAX, 3), "0.000");
    assert_eq!(decimal(-1, 3, 18), "-0.333333333333333333");
    assert_eq!(decimal(-1, 3, 25), "-0.333333333333333333");
    assert_eq!(decimal(7, 1, 18), "7.000000000000000000");
}

#[test]
fn fields_are_set_in_columns() {
    assert_eq!(right_aligned("Mach", 10), "      Mach");
    assert_eq!(right_aligned("Mach", 4), "Mach");
    assert_eq!(right_aligned("Mach", 2), "Mach");
    assert_eq!(right_aligned("", 3), "   ");
    assert_eq!(zero_filled("1.25", 8), "00001.25");
    assert_eq!(zero_filled("1.25", 4), "1.25");
    assert_eq!(zero_filled("1.25", 0), "1.25");
}

#[test]
fn a_plain_compact_table() {
    assert_eq!(
        write_table(&rows(), false, 1),
        "Distance(yd)      Drop(in)  Drop(MOA)    Wind(in)  Wind(MOA) Velocity(ft/s) Mach Energy(ftlb) Acc(ft/s^2) Time(s)\n         0.0          -1.5        0.0         0.0        0.0         3000.0  2.7       4395.7       974.7   0.000\n       100.0          -0.0        0.0         0.0        0.0         2903.2  2.6       4116.8       929.6   0.102\n       200.0          -2.6       -1.3         0.0        0.0         2808.0  2.5       3851.1       884.8   0.207\n       300.0          -9.7       -3.1         0.0        0.0         2714.3  2.4       3598.5       841.0   0.315\n"
    );
}

#[test]
fn a_pretty_compact_table() {
    assert_eq!(
        write_table(&rows(), true, 2),
        "+--------------+---------------+------------+-------------+------------+----------------+------+--------------+-------------+---------+\n| Distance(yd) |      Drop(in) |  Drop(MOA) |    Wind(in) |  Wind(MOA) | Velocity(ft/s) | Mach | Energy(ftlb) | Acc(ft/s^2) | Time(s) |\n+--------------+---------------+------------+-------------+------------+----------------+------+--------------+-------------+---------+\n|         0.00 |         -1.50 |       0.00 |        0.00 |       0.00 |        3000.00 | 2.69 |      4395.73 |      974.66 |   0.000 |\n+--------------+---------------+------------+-------------+------------+----------------+------+--------------+-------------+---------+\n|       100.05 |         -0.00 |       0.00 |        0.00 |       0.00 |        2903.25 | 2.60 |      4116.77 |      929.63 |   0.102 |\n+--------------+---------------+------------+-------------+------------+----------------+------+--------------+-------------+---------+\n|       200.03 |         -2.63 |      -1.25 |        0.00 |       0.00 |        2808.02 | 2.52 |      3851.14 |      884.82 |   0.207 |\n+--------------+---------------+------------+-------------+------------+----------------+------+--------------+-------------+---------+\n|       300.01 |         -9.66 |      -3.07 |        0.00 |       0.00 |        2714.35 | 2.43 |      3598.48 |      841.03 |   0.315 |\n+--------------+---------------+------------+-------------+------------+----------------+------+--------------+-------------+---------+\n"
    );
}

#[test]
fn a_plain_wide_table() {
    assert_eq!(
        print_table(&rows(), Length { nanometers: 127_000 }, false, 3),
        "Distance(yd)      Drop(in)  Drop(MOA)    Wind(in)  Wind(MOA) Velocity(ft/s)       Mach Energy(ftlb) Acceleration(ft/s^2)  Time(s)\n       0.000        -1.500      0.000       0.000      0.000       3000.000      2.687     4395.734              974.656    0.000\n     100.046        -0.000      0.000       0.000      0.000       2903.245      2.600     4116.768              929.628    0.102\n     200.026        -2.625     -1.253       0.000      0.000       2808.019      2.515     3851.137              884.818    0.207\n     300.012        -9.658     -3.074       0.000      0.000       2714.346      2.431     3598.481              841.026    0.315\n"
    );
}

#[test]
fn a_pretty_wide_table() {
    assert_eq!(
        print_table(&rows(), Length { nanometers: 127_000 }, true, 0),
        "+--------------+---------------+------------+-------------+------------+----------------+------------+--------------+----------------------+----------+\n| Distance(yd) |      Drop(in) |  Drop(MOA) |    Wind(in) |  Wind(MOA) | Velocity(ft/s) |       Mach | Energy(ftlb) | Acceleration(ft/s^2) |  Time(s) |\n+--------------+---------------+------------+-------------+------------+----------------+------------+--------------+----------------------+----------+\n|            0 |            -2 |          0 |           0 |          0 |           3000 |          3 |         4396 |                  975 |    0.000 |\n+--------------+---------------+------------+-------------+------------+----------------+------------+--------------+----------------------+----------+\n|          100 |            -0 |          0 |           0 |          0 |           2903 |          3 |         4117 |                  930 |    0.102 |\n+--------------+---------------+------------+-------------+------------+----------------+------------+--------------+----------------------+----------+\n|          200 |            -3 |         -1 |           0 |          0 |           2808 |          3 |         3851 |                  885 |    0.207 |\n+--------------+---------------+------------+-------------+------------+----------------+------------+--------------+----------------------+----------+\n|          300 |           -10 |         -3 |           0 |          0 |           2714 |          2 |         3598 |                  841 |    0.315 |\n+--------------+---------------+------------+-------------+------------+----------------+------------+--------------+----------------------+----------+\n"
    );
}

#[test]
fn a_plain_table_with_adjustments() {
    assert_eq!(
        print(&rows(), Length { nanometers: 127_000 }, false),
        "Distance(yd)      MOA Elevation(in) Windage(in)   Vertical Horizontal Velocity(ft/s) Energy(ftlb)  Time(s)\n           0 00000.00        1.50 U 000000.00 * 00000.00 U 00000.00 *        3000.00      4395.73 0000.000\n         100 00000.00        0.00 * 000000.00 * 00000.00 * 00000.00 *        2903.25      4116.77 0000.102\n         200 00001.25        2.63 U 000000.00 * 00001.25 U 00000.00 *        2808.02      3851.14 0000.207\n         300 00003.07        9.66 U 000000.00 * 00003.07 U 00000.00 *        2714.35      3598.48 0000.315\n"
    );
}

#[test]
fn a_pretty_table_with_adjustments() {
    assert_eq!(
        print(&rows(), Length { nanometers: 127_000 }, true),
        "+--------------+----------+---------------+-------------+------------+------------+----------------+--------------+----------+\n| Distance(yd) |      MOA | Elevation(in) | Windage(in) |   Vertical | Horizontal | Velocity(ft/s) | Energy(ftlb) |  Time(s) |\n+--------------+----------+---------------+-------------+------------+------------+----------------+--------------+----------+\n|            0 | 00000.00 |        1.50 U | 000000.00 * | 00000.00 U | 00000.00 * |        3000.00 |      4395.73 | 0000.000 |\n+--------------+----------+---------------+-------------+------------+------------+----------------+--------------+----------+\n|          100 | 00000.00 |        0.00 * | 000000.00 * | 00000.00 * | 00000.00 * |        2903.25 |      4116.77 | 0000.102 |\n+--------------+----------+---------------+-------------+------------+------------+----------------+--------------+----------+\n|          200 | 00001.25 |        2.63 U | 000000.00 * | 00001.25 U | 00000.00 * |        2808.02 |      3851.14 | 0000.207 |\n+--------------+----------+---------------+-------------+------------+------------+----------------+--------------+----------+\n|          300 | 00003.07 |        9.66 U | 000000.00 * | 00003.07 U | 00000.00 * |        2714.35 |      3598.48 | 0000.315 |\n+--------------+----------+---------------+-------------+------------+------------+----------------+--------------+----------+\n"
    );
}

#[test]
fn a_table_without_rows() {
    assert_eq!(
        write_table(&Vec::new(), true, 1),
        "+--------------+---------------+------------+-------------+------------+----------------+------+--------------+-------------+---------+\n| Distance(yd) |      Drop(in) |  Drop(MOA) |    Wind(in) |  Wind(MOA) | Velocity(ft/s) | Mach | Energy(ftlb) | Acc(ft/s^2) | Time(s) |\n+--------------+---------------+------------+-------------+------------+----------------+------+--------------+-------------+---------+\n"
    );
}

#[test]
fn a_plain_table_without_rows() {
    assert_eq!(
        print(&Vec::new(), Length { nanometers: 0 }, false),
        "Distance(yd)      MOA Elevation(in) Windage(in)   Vertical Horizontal Velocity(ft/s) Energy(ftlb)  Time(s)\n"
    );
}

#[test]
fn rows_in_each_layout() {
    let pk = off_to_the_left();
    let tolerance = Length { nanometers: 127_000 };

    assert_eq!(
        write_row(&pk, Layout::Compact, tolerance, false, 2),
        "     1000.02        212.20      20.26      -10.03      -0.96        2107.06 1.89      2168.41      492.13   1.194\n"
    );

    assert_eq!(
        write_row(&pk, Layout::Compact, tolerance, true, 2),
        "|      1000.02 |        212.20 |      20.26 |      -10.03 |      -0.96 |        2107.06 | 1.89 |      2168.41 |      492.13 |   1.194 |\n+--------------+---------------+------------+-------------+------------+----------------+------+--------------+-------------+---------+\n"
    );

    assert_eq!(
        write_row(&pk, Layout::Wide, tolerance, false, 2),
        "     1000.02        212.20      20.26      -10.03      -0.96        2107.06       1.89      2168.41               492.13    1.194\n"
    );

    assert_eq!(
        write_row(&pk, Layout::Wide, tolerance, true, 2),
        "|      1000.02 |        212.20 |      20.26 |      -10.03 |      -0.96 |        2107.06 |       1.89 |      2168.41 |               492.13 |    1.194 |\n+--------------+---------------+------------+-------------+------------+----------------+------------+--------------+----------------------+----------+\n"
    );

    assert_eq!(
        write_row(&pk, Layout::Adjusted, tolerance, false, 2),
        "        1000 00020.29      212.20 D 000010.03 R 00020.26 D 00000.96 R        2107.06      2168.41 0001.194\n"
    );

    assert_eq!(
        write_row(&pk, Layout::Adjusted, tolerance, true, 2),
        "|         1000 | 00020.29 |      212.20 D | 000010.03 R | 00020.26 D | 00000.96 R |        2107.06 |      2168.41 | 0001.194 |\n+--------------+----------+---------------+-------------+------------+------------+----------------+--------------+----------+\n"
    );

}

#[test]
fn angles_within_the_tolerance_count_as_zero() {
    let pk = off_to_the_left();
    let wide = Length { nanometers: 6_000_000_000 };
    assert_eq!(
        write_row(&pk, Layout::Wide, wide, false, 2),
        "     1000.02        212.20       0.00      -10.03       0.00        2107.06       1.89      2168.41               492.13    1.194\n"
    );
    assert_eq!(
        write_row(&pk, Layout::Adjusted, wide, false, 2),
        "        1000 00020.29      212.20 * 000010.03 * 00000.00 * 00000.00 *        2107.06      2168.41 0001.194\n"
    );
    assert_eq!(
        tabulate(&vec![pk], Layout::Adjusted, wide, false, 7),
        "Distance(yd)      MOA Elevation(in) Windage(in)   Vertical Horizontal Velocity(ft/s) Energy(ftlb)  Time(s)\n        1000 00020.29      212.20 * 000010.03 * 00000.00 * 00000.00 *        2107.06      2168.41 0001.194\n"
    );
}
