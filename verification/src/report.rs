//! Range tables as text: every quantity in the units of the range, set in
//! columns.

use vstd::prelude::*;
use vstd::string::{StrSliceExecFns, StringExecFns};
use crate::fixed::{abs_int, magnitude, MICRO, NANO};
use crate::measure::{correction_spec, subtended_spec, Adjustment};
use crate::trajectory::Packet;
use crate::units::{Angle, Length, NM_PER_FOOT, NM_PER_INCH, NM_PER_YARD};
use crate::vector::Vector3;

verus! {

/// The most decimals that a number is written with.
pub const MAX_PRECISION: usize = 18;

/// Microjoules in one foot-pound, rounded.
pub const UJ_PER_FOOT_POUND: i64 = 1_355_818;

/// The decimals that the time of flight is written with.
pub const TIME_PRECISION: usize = 3;

/// The character of a decimal digit.
pub open spec fn digit_char(d: int) -> char {
    if d == 0 {
        '0'
    } else if d == 1 {
        '1'
    } else if d == 2 {
        '2'
    } else if d == 3 {
        '3'
    } else if d == 4 {
        '4'
    } else if d == 5 {
        '5'
    } else if d == 6 {
        '6'
    } else if d == 7 {
        '7'
    } else if d == 8 {
        '8'
    } else {
        '9'
    }
}

/// The decimal digits of a natural number, without leading zeros.
pub open spec fn digits_spec(n: nat) -> Seq<char>
    decreases n,
{
    if n < 10 {
        seq![digit_char(n as int)]
    } else {
        digits_spec(n / 10).push(digit_char((n % 10) as int))
    }
}

/// The last `width` decimal digits of a natural number, with leading zeros.
pub open spec fn padded_digits_spec(n: nat, width: nat) -> Seq<char>
    decreases width,
{
    if width == 0 {
        Seq::empty()
    } else {
        padded_digits_spec(n / 10, (width - 1) as nat).push(digit_char((n % 10) as int))
    }
}

/// Ten to the power `p`.
pub open spec fn pow10(p: nat) -> nat
    decreases p,
{
    if p == 0 {
        1
    } else {
        10 * pow10((p - 1) as nat)
    }
}

/// The decimals that a number is written with when `precision` are asked
/// for: as many, but no more than `MAX_PRECISION`.
pub open spec fn decimals_spec(precision: nat) -> nat {
    if precision > MAX_PRECISION {
        MAX_PRECISION as nat
    } else {
        precision
    }
}

/// The magnitude of `value / per_unit` in units of the last decimal
/// written, rounded to the nearest, halves away from zero.
pub open spec fn rounded_spec(value: int, per_unit: int, decimals: nat) -> nat {
    ((abs_int(value) * pow10(decimals) * 2 + per_unit) / (2 * per_unit)) as nat
}

/// The quotient `value / per_unit` as a decimal number with a fixed number
/// of decimals: a minus sign where `value` is negative, the whole part, and
/// where decimals are written a point and the decimals.
pub open spec fn decimal_spec(value: int, per_unit: int, precision: nat) -> Seq<char> {
    let decimals = decimals_spec(precision);
    let rounded = rounded_spec(value, per_unit, decimals);
    let sign = if value < 0 {
        Seq::empty().push('-')
    } else {
        Seq::empty()
    };
    let whole = sign + digits_spec(rounded / pow10(decimals));
    if decimals == 0 {
        whole
    } else {
        whole.push('.') + padded_digits_spec(rounded % pow10(decimals), decimals)
    }
}

/// `count` spaces.
pub open spec fn spaces_spec(count: nat) -> Seq<char>
    decreases count,
{
    if count == 0 {
        Seq::empty()
    } else {
        spaces_spec((count - 1) as nat).push(' ')
    }
}

/// A text set flush right in a column of `width` characters; as it is
/// where it is wider.
pub open spec fn right_aligned_spec(text: Seq<char>, width: nat) -> Seq<char> {
    if text.len() < width {
        spaces_spec((width - text.len()) as nat) + text
    } else {
        text
    }
}

/// A number without a sign set flush right in a column of `width`
/// characters that is filled up with zeros; as it is where it is wider.
pub open spec fn zero_filled_spec(text: Seq<char>, width: nat) -> Seq<char> {
    if text.len() < width {
        zeros_spec((width - text.len()) as nat) + text
    } else {
        text
    }
}

/// `count` zeros.
pub open spec fn zeros_spec(count: nat) -> Seq<char>
    decreases count,
{
    if count == 0 {
        Seq::empty()
    } else {
        zeros_spec((count - 1) as nat).push('0')
    }
}

/// The magnitude of a value, saturated.
pub open spec fn magnitude_spec(value: i64) -> i64 {
    if value == i64::MIN {
        i64::MAX
    } else if value < 0 {
        (-value) as i64
    } else {
        value
    }
}

/// The three layouts of a range table.
#[derive(Clone, Copy, Debug, PartialEq, Eq, Structural)]
pub enum Layout {
    /// Ten narrow columns of measurements.
    Compact,
    /// Ten wide columns of measurements.
    Wide,
    /// Nine columns, with the adjustments that correct the shot.
    Adjusted,
}

impl Layout {
    /// The rule between the rows of a framed table.
    pub open spec fn frame_spec(self) -> Seq<char> {
        match self {
            Layout::Compact => "+--------------+---------------+------------+-------------+------------+----------------+------+--------------+-------------+---------+\n"@,
            Layout::Wide => "+--------------+---------------+------------+-------------+------------+----------------+------------+--------------+----------------------+----------+\n"@,
            Layout::Adjusted => "+--------------+----------+---------------+-------------+------------+------------+----------------+--------------+----------+\n"@,
        }
    }

    /// The titles of the columns, each flush right in its column.
    pub open spec fn titles_spec(self) -> Seq<Seq<char>> {
        match self {
            Layout::Compact => seq![
                right_aligned_spec("Distance(yd)"@, 12),
                right_aligned_spec("Drop(in)"@, 13),
                right_aligned_spec("Drop(MOA)"@, 10),
                right_aligned_spec("Wind(in)"@, 11),
                right_aligned_spec("Wind(MOA)"@, 10),
                right_aligned_spec("Velocity(ft/s)"@, 14),
                right_aligned_spec("Mach"@, 4),
                right_aligned_spec("Energy(ftlb)"@, 12),
                right_aligned_spec("Acc(ft/s^2)"@, 11),
                right_aligned_spec("Time(s)"@, 7),
            ],
            Layout::Wide => seq![
                right_aligned_spec("Distance(yd)"@, 12),
                right_aligned_spec("Drop(in)"@, 13),
                right_aligned_spec("Drop(MOA)"@, 10),
                right_aligned_spec("Wind(in)"@, 11),
                right_aligned_spec("Wind(MOA)"@, 10),
                right_aligned_spec("Velocity(ft/s)"@, 14),
                right_aligned_spec("Mach"@, 10),
                right_aligned_spec("Energy(ftlb)"@, 12),
                right_aligned_spec("Acceleration(ft/s^2)"@, 20),
                right_aligned_spec("Time(s)"@, 8),
            ],
            Layout::Adjusted => seq![
                right_aligned_spec("Distance(yd)"@, 12),
                right_aligned_spec("MOA"@, 8),
                right_aligned_spec("Elevation(in)"@, 13),
                right_aligned_spec("Windage(in)"@, 11),
                right_aligned_spec("Vertical"@, 10),
                right_aligned_spec("Horizontal"@, 10),
                right_aligned_spec("Velocity(ft/s)"@, 14),
                right_aligned_spec("Energy(ftlb)"@, 12),
                right_aligned_spec("Time(s)"@, 8),
            ],
        }
    }

    /// The fields of a snapshot, each set in its column.
    ///
    /// The compact and the wide layout give the distance in yards, the
    /// elevation in inches and in minutes of arc, the windage in inches and
    /// in minutes of arc, the speed in feet per second, the Mach number,
    /// the energy in foot-pounds, the acceleration in feet per second
    /// squared, all with `precision` decimals, and the time in seconds
    /// with three.  The angles count as zero within the tolerance.
    ///
    /// The adjusted layout gives the distance in whole yards, the angle
    /// off the line of sight in minutes of arc, the magnitudes of the
    /// elevation and of the windage in inches and in minutes of arc, each
    /// followed by the adjustment that corrects it, the speed, the energy,
    /// all with two decimals, and the time with three.
    pub open spec fn fields_spec(self, pk: Packet, tolerance: Length, precision: nat) -> Seq<
        Seq<char>,
    > {
        match self {
            Layout::Compact => seq![
                right_aligned_spec(yards_spec(pk, precision), 12),
                right_aligned_spec(inches_spec(pk.elevation.nanometers, precision), 13),
                right_aligned_spec(
                    minutes_spec(vertical_minutes_spec(pk, tolerance), precision),
                    10,
                ),
                right_aligned_spec(inches_spec(pk.windage.nanometers, precision), 11),
                right_aligned_spec(
                    minutes_spec(horizontal_minutes_spec(pk, tolerance), precision),
                    10,
                ),
                right_aligned_spec(speed_spec(pk, precision), 14),
                right_aligned_spec(mach_number_spec(pk, precision), 4),
                right_aligned_spec(foot_pounds_spec(pk, precision), 12),
                right_aligned_spec(feet_per_second_squared_spec(pk, precision), 11),
                right_aligned_spec(seconds_spec(pk), 7),
            ],
            Layout::Wide => seq![
                right_aligned_spec(yards_spec(pk, precision), 12),
                right_aligned_spec(inches_spec(pk.elevation.nanometers, precision), 13),
                right_aligned_spec(
                    minutes_spec(vertical_minutes_spec(pk, tolerance), precision),
                    10,
                ),
                right_aligned_spec(inches_spec(pk.windage.nanometers, precision), 11),
                right_aligned_spec(
                    minutes_spec(horizontal_minutes_spec(pk, tolerance), precision),
                    10,
                ),
                right_aligned_spec(speed_spec(pk, precision), 14),
                right_aligned_spec(mach_number_spec(pk, precision), 10),
                right_aligned_spec(foot_pounds_spec(pk, precision), 12),
                right_aligned_spec(feet_per_second_squared_spec(pk, precision), 20),
                right_aligned_spec(seconds_spec(pk), 8),
            ],
            Layout::Adjusted => seq![
                right_aligned_spec(yards_spec(pk, 0), 12),
                zero_filled_spec(minutes_spec(total_minutes_spec(pk), 2), 8),
                marked_spec(
                    right_aligned_spec(
                        inches_spec(magnitude_spec(pk.elevation.nanometers), 2),
                        11,
                    ),
                    Adjustment::Elevation(pk.elevation).adjustment_spec(tolerance),
                ),
                marked_spec(
                    zero_filled_spec(inches_spec(magnitude_spec(pk.windage.nanometers), 2), 9),
                    Adjustment::Windage(pk.windage).adjustment_spec(tolerance),
                ),
                marked_spec(
                    zero_filled_spec(
                        minutes_spec(magnitude_spec(vertical_minutes_spec(pk, tolerance)), 2),
                        8,
                    ),
                    Adjustment::Elevation(pk.elevation).adjustment_spec(tolerance),
                ),
                marked_spec(
                    zero_filled_spec(
                        minutes_spec(magnitude_spec(horizontal_minutes_spec(pk, tolerance)), 2),
                        8,
                    ),
                    Adjustment::Windage(pk.windage).adjustment_spec(tolerance),
                ),
                right_aligned_spec(speed_spec(pk, 2), 14),
                right_aligned_spec(foot_pounds_spec(pk, 2), 12),
                zero_filled_spec(seconds_spec(pk), 8),
            ],
        }
    }
}

/// A field followed by a space and a mark.
pub open spec fn marked_spec(field: Seq<char>, mark: char) -> Seq<char> {
    field.push(' ').push(mark)
}

/// The distance of a snapshot in yards.
pub open spec fn yards_spec(pk: Packet, precision: nat) -> Seq<char> {
    decimal_spec(pk.distance.nanometers as int, NM_PER_YARD as int, precision)
}

/// A length in inches.
pub open spec fn inches_spec(nanometers: i64, precision: nat) -> Seq<char> {
    decimal_spec(nanometers as int, NM_PER_INCH as int, precision)
}

/// An angle, given in millionths of a minute of arc, in minutes of arc.
pub open spec fn minutes_spec(micro_minutes: i64, precision: nat) -> Seq<char> {
    decimal_spec(micro_minutes as int, MICRO as int, precision)
}

/// The speed of a snapshot in feet per second.
pub open spec fn speed_spec(pk: Packet, precision: nat) -> Seq<char> {
    decimal_spec(pk.velocity.nm_per_s as int, NM_PER_FOOT as int, precision)
}

/// The Mach number of a snapshot.
pub open spec fn mach_number_spec(pk: Packet, precision: nat) -> Seq<char> {
    decimal_spec(pk.mach.millionths as int, MICRO as int, precision)
}

/// The energy of a snapshot in foot-pounds.
pub open spec fn foot_pounds_spec(pk: Packet, precision: nat) -> Seq<char> {
    decimal_spec(pk.energy.microjoules as int, UJ_PER_FOOT_POUND as int, precision)
}

/// The acceleration of a snapshot in feet per second squared.
pub open spec fn feet_per_second_squared_spec(pk: Packet, precision: nat) -> Seq<char> {
    decimal_spec(pk.acceleration.nm_per_s2 as int, NM_PER_FOOT as int, precision)
}

/// The time of a snapshot in seconds.
pub open spec fn seconds_spec(pk: Packet) -> Seq<char> {
    decimal_spec(pk.time.nanoseconds as int, NANO as int, TIME_PRECISION as nat)
}

/// The elevation of a snapshot as an angle in millionths of a minute of
/// arc, zero within the tolerance.
pub open spec fn vertical_minutes_spec(pk: Packet, tolerance: Length) -> i64 {
    (Angle {
        nanoradians: correction_spec(
            pk.elevation.nanometers,
            pk.distance.nanometers,
            tolerance.nanometers,
        ),
    }).micro_minutes_spec()
}

/// The windage of a snapshot as an angle in millionths of a minute of
/// arc, zero within the tolerance.
pub open spec fn horizontal_minutes_spec(pk: Packet, tolerance: Length) -> i64 {
    (Angle {
        nanoradians: correction_spec(
            pk.windage.nanometers,
            pk.distance.nanometers,
            tolerance.nanometers,
        ),
    }).micro_minutes_spec()
}

/// The angle of a snapshot off the line of sight in millionths of a minute
/// of arc.
pub open spec fn total_minutes_spec(pk: Packet) -> i64 {
    (Angle {
        nanoradians: subtended_spec(
            (Vector3 { x: 0, y: pk.elevation.nanometers, z: pk.windage.nanometers }).norm(),
            pk.distance.nanometers,
        ),
    }).micro_minutes_spec()
}

/// The rule between the rows: the frame of the layout where the table is
/// pretty, and else nothing.
pub open spec fn rule_spec(layout: Layout, pretty: bool) -> Seq<char> {
    if pretty {
        layout.frame_spec()
    } else {
        Seq::empty()
    }
}

/// The bar before each field of a pretty table.
pub open spec fn bar_spec(pretty: bool) -> Seq<char> {
    if pretty {
        "| "@
    } else {
        Seq::empty()
    }
}

/// The end of a row.
pub open spec fn end_spec(pretty: bool) -> Seq<char> {
    if pretty {
        " |\n"@
    } else {
        "\n"@
    }
}

/// Fields in a row: each behind a bar, parted by a space.
pub open spec fn joined_spec(fields: Seq<Seq<char>>, bar: Seq<char>) -> Seq<char>
    decreases fields.len(),
{
    if fields.len() == 0 {
        Seq::empty()
    } else if fields.len() == 1 {
        bar + fields[0]
    } else {
        joined_spec(fields.drop_last(), bar).push(' ') + bar + fields.last()
    }
}

/// A row: its fields, the end of the row, and a rule.
pub open spec fn line_spec(fields: Seq<Seq<char>>, layout: Layout, pretty: bool) -> Seq<char> {
    joined_spec(fields, bar_spec(pretty)) + end_spec(pretty) + rule_spec(layout, pretty)
}

/// The row of a snapshot.
pub open spec fn row_spec(
    pk: Packet,
    layout: Layout,
    tolerance: Length,
    pretty: bool,
    precision: nat,
) -> Seq<char> {
    line_spec(layout.fields_spec(pk, tolerance, precision), layout, pretty)
}

/// The rows of some snapshots, one after the other.
#[verifier::opaque]
pub open spec fn rows_spec(
    rows: Seq<Packet>,
    layout: Layout,
    tolerance: Length,
    pretty: bool,
    precision: nat,
) -> Seq<char>
    decreases rows.len(),
{
    if rows.len() == 0 {
        Seq::empty()
    } else {
        rows_spec(rows.drop_last(), layout, tolerance, pretty, precision) + row_spec(
            rows.last(),
            layout,
            tolerance,
            pretty,
            precision,
        )
    }
}

/// A range table as text: a rule, the titles, and the rows.
pub open spec fn table_spec(
    rows: Seq<Packet>,
    layout: Layout,
    tolerance: Length,
    pretty: bool,
    precision: nat,
) -> Seq<char> {
    rule_spec(layout, pretty) + line_spec(layout.titles_spec(), layout, pretty) + rows_spec(
        rows,
        layout,
        tolerance,
        pretty,
        precision,
    )
}

/// The rows of one more snapshot are the rows so far and its row.
pub proof fn lemma_rows_push(
    rows: Seq<Packet>,
    pk: Packet,
    layout: Layout,
    tolerance: Length,
    pretty: bool,
    precision: nat,
)
    ensures
        rows_spec(rows.push(pk), layout, tolerance, pretty, precision) == rows_spec(
            rows,
            layout,
            tolerance,
            pretty,
            precision,
        ) + row_spec(pk, layout, tolerance, pretty, precision),
        rows_spec(Seq::empty(), layout, tolerance, pretty, precision) == Seq::<char>::empty(),
{
    reveal(rows_spec);
    assert(rows.push(pk).drop_last() == rows);
}

/// The text of one decimal digit.
fn digit_text(d: u8) -> (text: &'static str)
    requires
        d < 10,
    ensures
        text@ == Seq::<char>::empty().push(digit_char(d as int)),
{
    proof {
        reveal_strlit("0");
        reveal_strlit("1");
        reveal_strlit("2");
        reveal_strlit("3");
        reveal_strlit("4");
        reveal_strlit("5");
        reveal_strlit("6");
        reveal_strlit("7");
        reveal_strlit("8");
        reveal_strlit("9");
    }
    let text = if d == 0 {
        "0"
    } else if d == 1 {
        "1"
    } else if d == 2 {
        "2"
    } else if d == 3 {
        "3"
    } else if d == 4 {
        "4"
    } else if d == 5 {
        "5"
    } else if d == 6 {
        "6"
    } else if d == 7 {
        "7"
    } else if d == 8 {
        "8"
    } else {
        "9"
    };
    assert(text@ =~= Seq::<char>::empty().push(digit_char(d as int)));
    text
}

/// Appends the decimal digits of `n`.
fn push_digits(out: &mut String, n: u128)
    ensures
        final(out)@ == old(out)@ + digits_spec(n as nat),
    decreases n,
{
    if n >= 10 {
        push_digits(out, n / 10);
    }
    out.append(digit_text((n % 10) as u8));
    assert(final(out)@ =~= old(out)@ + digits_spec(n as nat));
}

/// Appends the last `width` decimal digits of `n`.
fn push_padded_digits(out: &mut String, n: u128, width: usize)
    ensures
        final(out)@ == old(out)@ + padded_digits_spec(n as nat, width as nat),
    decreases width,
{
    if width > 0 {
        push_padded_digits(out, n / 10, width - 1);
        out.append(digit_text((n % 10) as u8));
    }
    assert(final(out)@ =~= old(out)@ + padded_digits_spec(n as nat, width as nat));
}

/// Appends `count` spaces.
fn push_spaces(out: &mut String, count: usize)
    ensures
        final(out)@ == old(out)@ + spaces_spec(count as nat),
    decreases count,
{
    if count > 0 {
        push_spaces(out, count - 1);
        proof {
            reveal_strlit(" ");
        }
        out.append(" ");
    }
    assert(final(out)@ =~= old(out)@ + spaces_spec(count as nat));
}

/// Ten to the power `p`.
fn power_of_ten(p: usize) -> (r: u128)
    requires
        p <= MAX_PRECISION,
    ensures
        r == pow10(p as nat),
        1 <= r <= 1_000_000_000_000_000_000,
{
    let mut r: u128 = 1;
    let mut i: usize = 0;
    proof {
        lemma_pow10_max();
    }
    while i < p
        invariant
            i <= p <= MAX_PRECISION,
            r == pow10(i as nat),
            1 <= r,
            r * pow10((MAX_PRECISION - i) as nat) == 1_000_000_000_000_000_000,
        decreases p - i,
    {
        proof {
            assert(pow10((MAX_PRECISION - i) as nat) == 10 * pow10((MAX_PRECISION - i - 1) as nat));
            assert(r * (10 * pow10((MAX_PRECISION - i - 1) as nat)) == (r * 10) * pow10(
                (MAX_PRECISION - i - 1) as nat,
            )) by (nonlinear_arith);
            lemma_pow10_positive((MAX_PRECISION - i - 1) as nat);
            assert(r * 10 <= 1_000_000_000_000_000_000) by (nonlinear_arith)
                requires
                    (r * 10) * pow10((MAX_PRECISION - i - 1) as nat) == 1_000_000_000_000_000_000,
                    pow10((MAX_PRECISION - i - 1) as nat) >= 1,
                    r >= 1,
            ;
        }
        r = r * 10;
        i = i + 1;
    }
    proof {
        lemma_pow10_positive((MAX_PRECISION - i) as nat);
        assert(r <= 1_000_000_000_000_000_000) by (nonlinear_arith)
            requires
                r * pow10((MAX_PRECISION - i) as nat) == 1_000_000_000_000_000_000,
                pow10((MAX_PRECISION - i) as nat) >= 1,
                r >= 1,
        ;
    }
    r
}

/// Ten to the power `MAX_PRECISION`.
pub proof fn lemma_pow10_max()
    ensures
        pow10(MAX_PRECISION as nat) == 1_000_000_000_000_000_000,
{
    reveal_with_fuel(pow10, 19);
}

/// Powers of ten are positive.
pub proof fn lemma_pow10_positive(p: nat)
    ensures
        pow10(p) >= 1,
    decreases p,
{
    if p > 0 {
        lemma_pow10_positive((p - 1) as nat);
    }
}

/// Writes `value / per_unit` as a decimal number with `precision`
/// decimals, or with `MAX_PRECISION` where more are asked for, rounded to
/// the nearest, halves away from zero.
#[verifier::rlimit(30)]
pub fn decimal(value: i64, per_unit: i64, precision: usize) -> (text: String)
    requires
        per_unit > 0,
    ensures
        text@ == decimal_spec(value as int, per_unit as int, precision as nat),
{
    let decimals = if precision > MAX_PRECISION {
        MAX_PRECISION
    } else {
        precision
    };
    let unit = power_of_ten(decimals);
    let m: u128 = magnitude(value) as u128;
    assert(m * unit * 2 + per_unit <= 0x8000_0000_0000_0000 * 1_000_000_000_000_000_000 * 2
        + 0x7fff_ffff_ffff_ffff) by (nonlinear_arith)
        requires
            m <= 0x8000_0000_0000_0000,
            unit <= 1_000_000_000_000_000_000,
            per_unit <= 0x7fff_ffff_ffff_ffff,
    ;
    let rounded: u128 = (m * unit * 2 + per_unit as u128) / (2 * per_unit as u128);
    let mut text = String::new();
    if value < 0 {
        proof {
            reveal_strlit("-");
        }
        text.append("-");
    }
    assert(text@ =~= if value < 0 {
        Seq::<char>::empty().push('-')
    } else {
        Seq::<char>::empty()
    });
    push_digits(&mut text, rounded / unit);
    if decimals > 0 {
        proof {
            reveal_strlit(".");
        }
        let ghost whole = text@;
        text.append(".");
        assert(text@ =~= whole.push('.'));
        push_padded_digits(&mut text, rounded % unit, decimals);
    }
    text
}

/// Appends `count` zeros.
fn push_zeros(out: &mut String, count: usize)
    ensures
        final(out)@ == old(out)@ + zeros_spec(count as nat),
    decreases count,
{
    if count > 0 {
        push_zeros(out, count - 1);
        proof {
            reveal_strlit("0");
        }
        out.append("0");
    }
    assert(final(out)@ =~= old(out)@ + zeros_spec(count as nat));
}

/// Sets a text flush right in a column.
pub fn right_aligned(text: &str, width: usize) -> (field: String)
    ensures
        field@ == right_aligned_spec(text@, width as nat),
{
    let mut field = String::new();
    let n = text.unicode_len();
    if n < width {
        push_spaces(&mut field, width - n);
    }
    field.append(text);
    assert(field@ =~= right_aligned_spec(text@, width as nat));
    field
}

/// Sets a number without a sign flush right in a column filled up with
/// zeros.
pub fn zero_filled(text: &str, width: usize) -> (field: String)
    ensures
        field@ == zero_filled_spec(text@, width as nat),
{
    let mut field = String::new();
    let n = text.unicode_len();
    if n < width {
        push_zeros(&mut field, width - n);
    }
    field.append(text);
    assert(field@ =~= zero_filled_spec(text@, width as nat));
    field
}

/// The magnitude of a value, saturated.
fn magnitude_sat(value: i64) -> (r: i64)
    ensures
        r == magnitude_spec(value),
{
    if value == i64::MIN {
        i64::MAX
    } else if value < 0 {
        -value
    } else {
        value
    }
}

/// The text of an adjustment.
fn mark_text(mark: char) -> (text: &'static str)
    requires
        mark == 'D' || mark == 'U' || mark == 'L' || mark == 'R' || mark == '*',
    ensures
        text@ == Seq::<char>::empty().push(mark),
{
    proof {
        reveal_strlit("D");
        reveal_strlit("U");
        reveal_strlit("L");
        reveal_strlit("R");
        reveal_strlit("*");
    }
    let text = if mark == 'D' {
        "D"
    } else if mark == 'U' {
        "U"
    } else if mark == 'L' {
        "L"
    } else if mark == 'R' {
        "R"
    } else {
        "*"
    };
    assert(text@ =~= Seq::<char>::empty().push(mark));
    text
}

/// Follows a field by a space and a mark.
fn marked(field: String, mark: char) -> (text: String)
    requires
        mark == 'D' || mark == 'U' || mark == 'L' || mark == 'R' || mark == '*',
    ensures
        text@ == marked_spec(field@, mark),
{
    let mut text = field;
    proof {
        reveal_strlit(" ");
    }
    text.append(" ");
    text.append(mark_text(mark));
    assert(text@ =~= marked_spec(field@, mark));
    text
}

/// The frame of a layout.
fn frame(layout: Layout) -> (text: &'static str)
    ensures
        text@ == layout.frame_spec(),
{
    match layout {
        Layout::Compact => "+--------------+---------------+------------+-------------+------------+----------------+------+--------------+-------------+---------+\n",
        Layout::Wide => "+--------------+---------------+------------+-------------+------------+----------------+------------+--------------+----------------------+----------+\n",
        Layout::Adjusted => "+--------------+----------+---------------+-------------+------------+------------+----------------+--------------+----------+\n",
    }
}

/// The rule between the rows.
fn rule(layout: Layout, pretty: bool) -> (text: &'static str)
    ensures
        text@ == rule_spec(layout, pretty),
{
    if pretty {
        frame(layout)
    } else {
        proof {
            reveal_strlit("");
        }
        assert(""@ =~= Seq::<char>::empty());
        ""
    }
}

/// What stands before each field.
fn bar(pretty: bool) -> (text: &'static str)
    ensures
        text@ == bar_spec(pretty),
{
    if pretty {
        "| "
    } else {
        proof {
            reveal_strlit("");
        }
        assert(""@ =~= Seq::<char>::empty());
        ""
    }
}

/// What ends a row.
fn end(pretty: bool) -> (text: &'static str)
    ensures
        text@ == end_spec(pretty),
{
    if pretty {
        " |\n"
    } else {
        "\n"
    }
}

/// The texts of some fields.
pub open spec fn texts(fields: Seq<String>) -> Seq<Seq<char>> {
    Seq::new(fields.len(), |i: int| fields[i]@)
}

/// Sets fields in a row.
#[verifier::rlimit(30)]
fn line(fields: &Vec<String>, layout: Layout, pretty: bool) -> (text: String)
    ensures
        text@ == line_spec(texts(fields@), layout, pretty),
{
    let bar = bar(pretty);
    let mut text = String::new();
    let mut i: usize = 0;
    assert(texts(fields@).take(0) =~= Seq::<Seq<char>>::empty());
    assert(text@ =~= joined_spec(Seq::<Seq<char>>::empty(), bar@));
    while i < fields.len()
        invariant
            i <= fields.len(),
            text@ == joined_spec(texts(fields@).take(i as int), bar@),
        decreases fields.len() - i,
    {
        let ghost before = texts(fields@).take(i as int);
        let ghost after = texts(fields@).take(i + 1);
        let ghost so_far = text@;
        if i > 0 {
            proof {
                reveal_strlit(" ");
            }
            text.append(" ");
            assert(text@ =~= so_far.push(' '));
        }
        text.append(bar);
        text.append(fields[i].as_str());
        proof {
            assert(after.drop_last() =~= before);
            assert(after.last() == fields@[i as int]@);
            if i == 0 {
                assert(so_far =~= Seq::<char>::empty());
                assert(text@ =~= bar@ + after[0]);
            }
        }
        i = i + 1;
    }
    assert(texts(fields@).take(fields.len() as int) =~= texts(fields@));
    text.append(end(pretty));
    text.append(rule(layout, pretty));
    text
}

/// The titles of the columns of a layout.
#[verifier::rlimit(30)]
fn titles(layout: Layout) -> (fields: Vec<String>)
    ensures
        texts(fields@) == layout.titles_spec(),
{
    let mut fields: Vec<String> = Vec::new();
    match layout {
        Layout::Compact => {
            fields.push(right_aligned("Distance(yd)", 12));
            fields.push(right_aligned("Drop(in)", 13));
            fields.push(right_aligned("Drop(MOA)", 10));
            fields.push(right_aligned("Wind(in)", 11));
            fields.push(right_aligned("Wind(MOA)", 10));
            fields.push(right_aligned("Velocity(ft/s)", 14));
            fields.push(right_aligned("Mach", 4));
            fields.push(right_aligned("Energy(ftlb)", 12));
            fields.push(right_aligned("Acc(ft/s^2)", 11));
            fields.push(right_aligned("Time(s)", 7));
        },
        Layout::Wide => {
            fields.push(right_aligned("Distance(yd)", 12));
            fields.push(right_aligned("Drop(in)", 13));
            fields.push(right_aligned("Drop(MOA)", 10));
            fields.push(right_aligned("Wind(in)", 11));
            fields.push(right_aligned("Wind(MOA)", 10));
            fields.push(right_aligned("Velocity(ft/s)", 14));
            fields.push(right_aligned("Mach", 10));
            fields.push(right_aligned("Energy(ftlb)", 12));
            fields.push(right_aligned("Acceleration(ft/s^2)", 20));
            fields.push(right_aligned("Time(s)", 8));
        },
        Layout::Adjusted => {
            fields.push(right_aligned("Distance(yd)", 12));
            fields.push(right_aligned("MOA", 8));
            fields.push(right_aligned("Elevation(in)", 13));
            fields.push(right_aligned("Windage(in)", 11));
            fields.push(right_aligned("Vertical", 10));
            fields.push(right_aligned("Horizontal", 10));
            fields.push(right_aligned("Velocity(ft/s)", 14));
            fields.push(right_aligned("Energy(ftlb)", 12));
            fields.push(right_aligned("Time(s)", 8));
        },
    }
    assert(texts(fields@) =~= layout.titles_spec());
    fields
}

/// The fields of a snapshot in the compact or in the wide layout.
#[verifier::rlimit(30)]
fn measured(pk: &Packet, tolerance: Length, precision: usize, wide: bool) -> (fields: Vec<String>)
    ensures
        wide ==> texts(fields@) == Layout::Wide.fields_spec(*pk, tolerance, precision as nat),
        !wide ==> texts(fields@) == Layout::Compact.fields_spec(*pk, tolerance, precision as nat),
{
    let mut fields: Vec<String> = Vec::new();
    let mach = if wide {
        10
    } else {
        4
    };
    let acceleration = if wide {
        20
    } else {
        11
    };
    let time = if wide {
        8
    } else {
        7
    };
    let vertical = pk.vertical_angle(tolerance).micro_minutes();
    let horizontal = pk.horizontal_angle(tolerance).micro_minutes();
    fields.push(right_aligned(decimal(pk.distance.nanometers, NM_PER_YARD, precision).as_str(), 12));
    fields.push(
        right_aligned(decimal(pk.elevation.nanometers, NM_PER_INCH, precision).as_str(), 13),
    );
    fields.push(right_aligned(decimal(vertical, MICRO, precision).as_str(), 10));
    fields.push(right_aligned(decimal(pk.windage.nanometers, NM_PER_INCH, precision).as_str(), 11));
    fields.push(right_aligned(decimal(horizontal, MICRO, precision).as_str(), 10));
    fields.push(right_aligned(decimal(pk.velocity.nm_per_s, NM_PER_FOOT, precision).as_str(), 14));
    fields.push(right_aligned(decimal(pk.mach.millionths, MICRO, precision).as_str(), mach));
    fields.push(
        right_aligned(decimal(pk.energy.microjoules, UJ_PER_FOOT_POUND, precision).as_str(), 12),
    );
    fields.push(
        right_aligned(
            decimal(pk.acceleration.nm_per_s2, NM_PER_FOOT, precision).as_str(),
            acceleration,
        ),
    );
    fields.push(right_aligned(decimal(pk.time.nanoseconds, NANO, TIME_PRECISION).as_str(), time));
    proof {
        if wide {
            assert(texts(fields@) =~= Layout::Wide.fields_spec(*pk, tolerance, precision as nat));
        } else {
            assert(texts(fields@) =~= Layout::Compact.fields_spec(
                *pk,
                tolerance,
                precision as nat,
            ));
        }
    }
    fields
}

/// The fields of a snapshot in the adjusted layout.
#[verifier::rlimit(30)]
fn adjusted(pk: &Packet, tolerance: Length) -> (fields: Vec<String>)
    ensures
        texts(fields@) == Layout::Adjusted.fields_spec(*pk, tolerance, 0),
{
    let mut fields: Vec<String> = Vec::new();
    let up = pk.vertical_adjustment(tolerance);
    let left = pk.horizontal_adjustment(tolerance);
    let vertical = magnitude_sat(pk.vertical_angle(tolerance).micro_minutes());
    let horizontal = magnitude_sat(pk.horizontal_angle(tolerance).micro_minutes());
    fields.push(right_aligned(decimal(pk.distance.nanometers, NM_PER_YARD, 0).as_str(), 12));
    fields.push(zero_filled(decimal(pk.angle().micro_minutes(), MICRO, 2).as_str(), 8));
    fields.push(
        marked(
            right_aligned(
                decimal(magnitude_sat(pk.elevation.nanometers), NM_PER_INCH, 2).as_str(),
                11,
            ),
            up,
        ),
    );
    fields.push(
        marked(
            zero_filled(decimal(magnitude_sat(pk.windage.nanometers), NM_PER_INCH, 2).as_str(), 9),
            left,
        ),
    );
    fields.push(marked(zero_filled(decimal(vertical, MICRO, 2).as_str(), 8), up));
    fields.push(marked(zero_filled(decimal(horizontal, MICRO, 2).as_str(), 8), left));
    fields.push(right_aligned(decimal(pk.velocity.nm_per_s, NM_PER_FOOT, 2).as_str(), 14));
    fields.push(right_aligned(decimal(pk.energy.microjoules, UJ_PER_FOOT_POUND, 2).as_str(), 12));
    fields.push(zero_filled(decimal(pk.time.nanoseconds, NANO, TIME_PRECISION).as_str(), 8));
    assert(texts(fields@) =~= Layout::Adjusted.fields_spec(*pk, tolerance, 0));
    fields
}

/// Writes one row of a range table.
pub fn write_row(pk: &Packet, layout: Layout, tolerance: Length, pretty: bool, precision: usize) -> (text:
    String)
    ensures
        text@ == row_spec(*pk, layout, tolerance, pretty, precision as nat),
{
    let fields = match layout {
        Layout::Compact => measured(pk, tolerance, precision, false),
        Layout::Wide => measured(pk, tolerance, precision, true),
        Layout::Adjusted => adjusted(pk, tolerance),
    };
    line(&fields, layout, pretty)
}

/// Writes a range table in a layout: a rule, the titles of the columns,
/// and a row for each snapshot.  A pretty table is framed.
#[verifier::rlimit(30)]
pub fn tabulate(
    rows: &Vec<Packet>,
    layout: Layout,
    tolerance: Length,
    pretty: bool,
    precision: usize,
) -> (text: String)
    ensures
        text@ == table_spec(rows@, layout, tolerance, pretty, precision as nat),
{
    let mut text = String::new();
    text.append(rule(layout, pretty));
    let head = line(&titles(layout), layout, pretty);
    text.append(head.as_str());
    let ghost top = text@;
    proof {
        assert(top =~= rule_spec(layout, pretty) + line_spec(layout.titles_spec(), layout, pretty));
        lemma_rows_push(Seq::empty(), rows@[0], layout, tolerance, pretty, precision as nat);
        assert(rows@.take(0) =~= Seq::<Packet>::empty());
    }
    let mut i: usize = 0;
    while i < rows.len()
        invariant
            i <= rows.len(),
            text@ == top + rows_spec(
                rows@.take(i as int),
                layout,
                tolerance,
                pretty,
                precision as nat,
            ),
        decreases rows.len() - i,
    {
        let row = write_row(&rows[i], layout, tolerance, pretty, precision);
        let ghost before = rows@.take(i as int);
        let ghost so_far = rows_spec(before, layout, tolerance, pretty, precision as nat);
        text.append(row.as_str());
        proof {
            lemma_rows_push(before, rows@[i as int], layout, tolerance, pretty, precision as nat);
            assert(rows@.take(i + 1) =~= before.push(rows@[i as int]));
            assert(top + so_far + row@ =~= top + (so_far + row@));
        }
        i = i + 1;
    }
    assert(rows@.take(rows.len() as int) =~= rows@);
    text
}

/// Writes a range table in ten narrow columns, every measurement with
/// `precision` decimals.
pub fn write_table(rows: &Vec<Packet>, pretty: bool, precision: usize) -> (text: String)
    ensures
        text@ == table_spec(
            rows@,
            Layout::Compact,
            Length { nanometers: 0 },
            pretty,
            precision as nat,
        ),
{
    tabulate(rows, Layout::Compact, Length { nanometers: 0 }, pretty, precision)
}

/// Writes a range table in ten wide columns, every measurement with
/// `precision` decimals and the angles as zero within the tolerance.
pub fn print_table(rows: &Vec<Packet>, output_tolerance: Length, pretty: bool, precision: usize) -> (text:
    String)
    ensures
        text@ == table_spec(rows@, Layout::Wide, output_tolerance, pretty, precision as nat),
{
    tabulate(rows, Layout::Wide, output_tolerance, pretty, precision)
}

/// Writes a range table with the adjustments that correct the shot.
pub fn print(rows: &Vec<Packet>, output_tolerance: Length, pretty: bool) -> (text: String)
    ensures
        text@ == table_spec(rows@, Layout::Adjusted, output_tolerance, pretty, 0),
{
    tabulate(rows, Layout::Adjusted, output_tolerance, pretty, 0)
}

} // verus!
