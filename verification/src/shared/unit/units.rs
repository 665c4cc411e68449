//! The catalog of units.

use super::definition::{PrefixGroup, UnitDef, UnitDefView};
use super::dimensions::Dimension;
use super::props::{CalcMode, Formula, FormulaView, Real, UnitProps, UnitPropsView, ONE, ZERO};
use crate::text::same_text;
use vstd::prelude::*;

verus! {

/// The bits of 0.125, a bit in bytes.
pub const BIT_IN_BYTES: u64 = 0x3FC0_0000_0000_0000;

/// The bits of 1e6, a tonne in grams.
pub const TONNE_IN_GRAMS: u64 = 0x412E_8480_0000_0000;

/// The bits of 0.3048, a foot in metres.
pub const FOOT_IN_METRES: u64 = 0x3FD3_81D7_DBF4_87FD;

/// The bits of 1609.344, a mile in metres.
pub const MILE_IN_METRES: u64 = 0x4099_2560_4189_374C;

/// The bits of 0.0254, an inch in metres.
pub const INCH_IN_METRES: u64 = 0x3F9A_0275_2546_0AA6;

/// The bits of 0.000352778, a typographic point in metres.
pub const POINT_IN_METRES: u64 = 0x3F37_1EA1_F906_0824;

/// The bits of 0.004233333, a pica in metres.
pub const PICA_IN_METRES: u64 = 0x3F71_56F8_AC9B_F739;

/// The bits of 60, a minute in seconds.
pub const MINUTE_IN_SECONDS: u64 = 0x404E_0000_0000_0000;

/// The bits of 3600, an hour in seconds.
pub const HOUR_IN_SECONDS: u64 = 0x40AC_2000_0000_0000;

/// The bits of 86400, a day in seconds.
pub const DAY_IN_SECONDS: u64 = 0x40F5_1800_0000_0000;

/// The bits of 604800, a week in seconds.
pub const WEEK_IN_SECONDS: u64 = 0x4122_7500_0000_0000;

/// The bits of 2629746, a mean month in seconds.
pub const MONTH_IN_SECONDS: u64 = 0x4144_1039_0000_0000;

/// The bits of 31556952, a mean year in seconds.
pub const YEAR_IN_SECONDS: u64 = 0x417E_1855_8000_0000;

/// The bits of 0.44704, a mile per hour in metres per second.
pub const MILE_PER_HOUR: u64 = 0x3FDC_9C4D_A900_3EEA;

/// The bits of 0.514444, a knot in metres per second.
pub const KNOT: u64 = 0x3FE0_7653_4373_F317;

/// The bits of 273.15, the freezing point of water in kelvins.
pub const FREEZING_POINT: u64 = 0x4071_1266_6666_6666;

/// The bits of 373.15, the boiling point of water in kelvins.
pub const BOILING_POINT: u64 = 0x4077_5266_6666_6666;

/// The bits of 5/9, a degree of Fahrenheit or Rankine in kelvins.
pub const FIVE_NINTHS: u64 = 0x3FE1_C71C_71C7_1C72;

/// The bits of 255.37222222222222, the zero of Fahrenheit in kelvins.
pub const FAHRENHEIT_ZERO: u64 = 0x406F_EBE9_3E93_E93E;

/// The bits of 100/33, a degree of Newton in kelvins.
pub const NEWTON_DEGREE: u64 = 0x4008_3E0F_83E0_F83E;

/// The bits of -2/3, a degree of Delisle in kelvins.
pub const DELISLE_DEGREE: u64 = 0xBFE5_5555_5555_5555;

/// The bits of 1.25, a degree of Reaumur in kelvins.
pub const REAUMUR_DEGREE: u64 = 0x3FF4_0000_0000_0000;

/// The bits of 40/21, a degree of Romer in kelvins.
pub const ROMER_DEGREE: u64 = 0x3FFE_79E7_9E79_E79E;

/// The bits of 258.864286, the zero of Romer in kelvins.
pub const ROMER_ZERO: u64 = 0x4070_2DD4_1D8E_8640;

/// The bits of 20.15, the zero of the Leiden scale in kelvins.
pub const LEIDEN_ZERO: u64 = 0x4034_2666_6666_6666;

/// The bits of 24.857191, a degree of Wedgwood in kelvins.
pub const WEDGWOOD_DEGREE: u64 = 0x4038_DB70_DE8F_6CF0;

/// The bits of 542.15, the zero of Wedgwood in kelvins.
pub const WEDGWOOD_ZERO: u64 = 0x4080_F133_3333_3333;

/// The bits of 0.01, one percent.
pub const PERCENT: u64 = 0x3F84_7AE1_47AE_147B;

/// The bits of 0.017453292519943295, a degree of arc in radians.
pub const DEGREE_IN_RADIANS: u64 = 0x3F91_DF46_A252_9D39;

/// The properties of a unit, from the bits of its scale and offset.
pub open spec fn props(scale: u64, offset: u64, mode: CalcMode, formula: FormulaView) -> UnitPropsView {
    UnitPropsView { scale: Real { bits: scale }, offset: Real { bits: offset }, mode, formula }
}

/// A unit whose symbol takes the prefixes of `group` above and below the
/// stroke.
pub open spec fn unit(
    symbol: Seq<char>,
    dimension: Dimension,
    parts: Option<(Seq<char>, Seq<char>)>,
    group: PrefixGroup,
    props: UnitPropsView,
) -> UnitDefView {
    UnitDefView {
        symbol,
        dimension,
        parts,
        props,
        numerator_group: group,
        denominator_group: group,
    }
}

/// A unit of one dimension that is `scale` base units of it.
pub open spec fn scaled(
    symbol: Seq<char>,
    dimension: Dimension,
    group: PrefixGroup,
    scale: u64,
) -> UnitDefView {
    unit(
        symbol,
        dimension,
        None,
        group,
        props(scale, ZERO, CalcMode::Linear, FormulaView::Dimensionless),
    )
}

/// A unit that is a quotient of products of dimensions, and `scale` base
/// units of it.
pub open spec fn quotient(
    symbol: Seq<char>,
    dimension: Dimension,
    parts: Option<(Seq<char>, Seq<char>)>,
    group: PrefixGroup,
    scale: u64,
    num: Seq<Dimension>,
    den: Seq<Dimension>,
) -> UnitDefView {
    unit(
        symbol,
        dimension,
        parts,
        group,
        props(scale, ZERO, CalcMode::Linear, FormulaView::Complex { num, den }),
    )
}

/// A temperature scale, under one spelling of the degree.
pub open spec fn thermal(symbol: Seq<char>, scale: u64, offset: u64, mode: CalcMode) -> UnitDefView {
    unit(
        symbol,
        Dimension::Temperature,
        None,
        PrefixGroup::Thermal,
        props(scale, offset, mode, FormulaView::Dimensionless),
    )
}

fn make_props(scale: u64, offset: u64, mode: CalcMode, formula: Formula) -> (p: UnitProps)
    ensures
        p@ == props(scale, offset, mode, formula@),
{
    UnitProps { scale: Real { bits: scale }, offset: Real { bits: offset }, mode, formula }
}

fn make_scaled(symbol: &'static str, dimension: Dimension, group: PrefixGroup, scale: u64) -> (d:
    UnitDef)
    ensures
        d@ == scaled(symbol@, dimension, group, scale),
{
    UnitDef::new(
        symbol,
        dimension,
        None,
        group,
        group,
        make_props(scale, ZERO, CalcMode::Linear, Formula::Dimensionless),
    )
}

fn make_quotient(
    symbol: &'static str,
    dimension: Dimension,
    parts: Option<(&'static str, &'static str)>,
    group: PrefixGroup,
    scale: u64,
    num: &'static [Dimension],
    den: &'static [Dimension],
) -> (d: UnitDef)
    ensures
        d@ == quotient(
            symbol@,
            dimension,
            match parts {
                Some((above, below)) => Some((above@, below@)),
                None => None,
            },
            group,
            scale,
            num@,
            den@,
        ),
{
    UnitDef::new(
        symbol,
        dimension,
        parts,
        group,
        group,
        make_props(scale, ZERO, CalcMode::Linear, Formula::Complex { num, den }),
    )
}

fn make_thermal(symbol: &'static str, scale: u64, offset: u64, mode: CalcMode) -> (d: UnitDef)
    ensures
        d@ == thermal(symbol@, scale, offset, mode),
{
    UnitDef::new(
        symbol,
        Dimension::Temperature,
        None,
        PrefixGroup::Thermal,
        PrefixGroup::Thermal,
        make_props(scale, offset, mode, Formula::Dimensionless),
    )
}

/// The views of a list of units, in order.
pub open spec fn unit_views(units: Seq<UnitDef>) -> Seq<UnitDefView> {
    units.map_values(|d: UnitDef| d@)
}

/// The units that take the prefixes of the metric system.
pub open spec fn metric_units() -> Seq<UnitDefView> {
    seq![
        quotient(
            "Hz"@,
            Dimension::Frequency,
            None,
            PrefixGroup::SI,
            ONE,
            Seq::empty(),
            seq![Dimension::Time],
        ),
        scaled("g"@, Dimension::Mass, PrefixGroup::SI, ONE),
        scaled("m"@, Dimension::Length, PrefixGroup::SI, ONE),
        scaled("s"@, Dimension::Time, PrefixGroup::SI, ONE),
        scaled("mol"@, Dimension::Amount, PrefixGroup::SI, ONE),
        quotient(
            "g/m2"@,
            Dimension::AreaDensity,
            Some(("g"@, "m2"@)),
            PrefixGroup::SI,
            ONE,
            seq![Dimension::Mass],
            seq![Dimension::Length, Dimension::Length],
        ),
        quotient(
            "g/m3"@,
            Dimension::Density,
            Some(("g"@, "m3"@)),
            PrefixGroup::SI,
            ONE,
            seq![Dimension::Mass],
            seq![Dimension::Length, Dimension::Length, Dimension::Length],
        ),
        quotient(
            "m/s"@,
            Dimension::Velocity,
            Some(("m"@, "s"@)),
            PrefixGroup::SI,
            ONE,
            seq![Dimension::Length],
            seq![Dimension::Time],
        ),
        quotient(
            "m/s2"@,
            Dimension::Acceleration,
            Some(("m"@, "s2"@)),
            PrefixGroup::SI,
            ONE,
            seq![Dimension::Length],
            seq![Dimension::Time, Dimension::Time],
        ),
        quotient(
            "m/s3"@,
            Dimension::Jerk,
            Some(("m"@, "s3"@)),
            PrefixGroup::SI,
            ONE,
            seq![Dimension::Length],
            seq![Dimension::Time, Dimension::Time, Dimension::Time],
        ),
        quotient(
            "m/s4"@,
            Dimension::Snap,
            Some(("m"@, "s4"@)),
            PrefixGroup::SI,
            ONE,
            seq![Dimension::Length],
            seq![Dimension::Time, Dimension::Time, Dimension::Time, Dimension::Time],
        ),
        quotient(
            "m/s5"@,
            Dimension::Crackle,
            Some(("m"@, "s5"@)),
            PrefixGroup::SI,
            ONE,
            seq![Dimension::Length],
            seq![Dimension::Time, Dimension::Time, Dimension::Time, Dimension::Time, Dimension::Time],
        ),
        quotient(
            "m/s6"@,
            Dimension::Pop,
            Some(("m"@, "s6"@)),
            PrefixGroup::SI,
            ONE,
            seq![Dimension::Length],
            seq![Dimension::Time, Dimension::Time, Dimension::Time, Dimension::Time, Dimension::Time, Dimension::Time],
        ),
        scaled("b"@, Dimension::Size, PrefixGroup::SI, BIT_IN_BYTES),
        scaled("B"@, Dimension::Size, PrefixGroup::SI, ONE),
        quotient(
            "bit/s"@,
            Dimension::BitRate,
            Some(("bit"@, "s"@)),
            PrefixGroup::SI,
            BIT_IN_BYTES,
            seq![Dimension::Size],
            seq![Dimension::Time],
        ),
        quotient(
            "B/s"@,
            Dimension::BitRate,
            Some(("B"@, "s"@)),
            PrefixGroup::SI,
            ONE,
            seq![Dimension::Size],
            seq![Dimension::Time],
        ),
    ]
}

/// Units of mass and length outside the metric system, and those of typography.
pub open spec fn customary_units() -> Seq<UnitDefView> {
    seq![
        scaled("t"@, Dimension::Mass, PrefixGroup::NoPrefix, TONNE_IN_GRAMS),
        scaled("ft"@, Dimension::Length, PrefixGroup::NoPrefix, FOOT_IN_METRES),
        scaled("mi"@, Dimension::Length, PrefixGroup::NoPrefix, MILE_IN_METRES),
        scaled("in"@, Dimension::Length, PrefixGroup::NoPrefix, INCH_IN_METRES),
        scaled("em"@, Dimension::Length, PrefixGroup::NoPrefix, ONE),
        scaled("rem"@, Dimension::Length, PrefixGroup::NoPrefix, ONE),
        scaled("pt"@, Dimension::Length, PrefixGroup::NoPrefix, POINT_IN_METRES),
        scaled("pc"@, Dimension::Length, PrefixGroup::NoPrefix, PICA_IN_METRES),
        scaled("px"@, Dimension::Length, PrefixGroup::NoPrefix, ONE),
    ]
}

/// The units of time above the second.
pub open spec fn calendar_units() -> Seq<UnitDefView> {
    seq![
        scaled("min"@, Dimension::Time, PrefixGroup::NoPrefix, MINUTE_IN_SECONDS),
        scaled("hour"@, Dimension::Time, PrefixGroup::NoPrefix, HOUR_IN_SECONDS),
        scaled("day"@, Dimension::Time, PrefixGroup::NoPrefix, DAY_IN_SECONDS),
        scaled("week"@, Dimension::Time, PrefixGroup::NoPrefix, WEEK_IN_SECONDS),
        scaled("month"@, Dimension::Time, PrefixGroup::NoPrefix, MONTH_IN_SECONDS),
        scaled("year"@, Dimension::Time, PrefixGroup::NoPrefix, YEAR_IN_SECONDS),
    ]
}

/// Units of speed outside the metric system.
pub open spec fn speed_units() -> Seq<UnitDefView> {
    seq![
        quotient(
            "ft/s"@,
            Dimension::Velocity,
            Some(("m"@, "s"@)),
            PrefixGroup::NoPrefix,
            FOOT_IN_METRES,
            seq![Dimension::Length],
            seq![Dimension::Time],
        ),
        quotient(
            "mi/h"@,
            Dimension::Velocity,
            Some(("m"@, "s"@)),
            PrefixGroup::NoPrefix,
            MILE_PER_HOUR,
            seq![Dimension::Length],
            seq![Dimension::Time],
        ),
        quotient(
            "kn"@,
            Dimension::Velocity,
            Some(("m"@, "s"@)),
            PrefixGroup::NoPrefix,
            KNOT,
            seq![Dimension::Length],
            seq![Dimension::Time],
        ),
    ]
}

/// The kelvin and the temperature scales, each scale under both spellings of the
/// degree.
pub open spec fn temperature_units() -> Seq<UnitDefView> {
    seq![
        scaled("K"@, Dimension::Temperature, PrefixGroup::NoPrefix, ONE),
        thermal("degC"@, ONE, FREEZING_POINT, CalcMode::Linear),
        thermal("\u{00B0}C"@, ONE, FREEZING_POINT, CalcMode::Linear),
        thermal("degF"@, FIVE_NINTHS, FAHRENHEIT_ZERO, CalcMode::Linear),
        thermal("\u{00B0}F"@, FIVE_NINTHS, FAHRENHEIT_ZERO, CalcMode::Linear),
        thermal("degRa"@, FIVE_NINTHS, ZERO, CalcMode::Linear),
        thermal("\u{00B0}Ra"@, FIVE_NINTHS, ZERO, CalcMode::Linear),
        thermal("degN"@, NEWTON_DEGREE, FREEZING_POINT, CalcMode::Linear),
        thermal("\u{00B0}N"@, NEWTON_DEGREE, FREEZING_POINT, CalcMode::Linear),
        thermal("degD"@, DELISLE_DEGREE, BOILING_POINT, CalcMode::Linear),
        thermal("\u{00B0}D"@, DELISLE_DEGREE, BOILING_POINT, CalcMode::Linear),
        thermal("degRe"@, REAUMUR_DEGREE, FREEZING_POINT, CalcMode::Linear),
        thermal("\u{00B0}Re"@, REAUMUR_DEGREE, FREEZING_POINT, CalcMode::Linear),
        thermal("degRo"@, ROMER_DEGREE, ROMER_ZERO, CalcMode::Linear),
        thermal("\u{00B0}Ro"@, ROMER_DEGREE, ROMER_ZERO, CalcMode::Linear),
        thermal("degL"@, ONE, LEIDEN_ZERO, CalcMode::Linear),
        thermal("\u{00B0}L"@, ONE, LEIDEN_ZERO, CalcMode::Linear),
        thermal("degW"@, WEDGWOOD_DEGREE, WEDGWOOD_ZERO, CalcMode::Linear),
        thermal("\u{00B0}W"@, WEDGWOOD_DEGREE, WEDGWOOD_ZERO, CalcMode::Linear),
        thermal("degDa"@, BOILING_POINT, FREEZING_POINT, CalcMode::Exponential),
        thermal("\u{00B0}Da"@, BOILING_POINT, FREEZING_POINT, CalcMode::Exponential),
    ]
}

/// Shares, angles and the count of dimensions.
pub open spec fn other_units() -> Seq<UnitDefView> {
    seq![
        scaled("%"@, Dimension::Percent, PrefixGroup::NoPrefix, PERCENT),
        scaled("fr"@, Dimension::Fraction, PrefixGroup::NoPrefix, ONE),
        scaled("deg"@, Dimension::Degree, PrefixGroup::NoPrefix, DEGREE_IN_RADIANS),
        scaled("\u{00B0}"@, Dimension::Degree, PrefixGroup::NoPrefix, DEGREE_IN_RADIANS),
        scaled("rad"@, Dimension::Radian, PrefixGroup::NoPrefix, ONE),
        scaled("D"@, Dimension::Dimension, PrefixGroup::NoPrefix, ONE),
    ]
}

/// The catalog: every unit, in the order in which a symbol is looked for.
pub open spec fn catalog() -> Seq<UnitDefView> {
    metric_units() + customary_units() + calendar_units() + speed_units() + temperature_units()
        + other_units()
}

fn push_metric_units(v: &mut Vec<UnitDef>)
    ensures
        unit_views(final(v)@) == unit_views(old(v)@) + metric_units(),
{
    v.push(
        make_quotient(
            "Hz",
            Dimension::Frequency,
            None,
            PrefixGroup::SI,
            ONE,
            &[],
            &[Dimension::Time],
        ),
    );
    v.push(make_scaled("g", Dimension::Mass, PrefixGroup::SI, ONE));
    v.push(make_scaled("m", Dimension::Length, PrefixGroup::SI, ONE));
    v.push(make_scaled("s", Dimension::Time, PrefixGroup::SI, ONE));
    v.push(make_scaled("mol", Dimension::Amount, PrefixGroup::SI, ONE));
    v.push(
        make_quotient(
            "g/m2",
            Dimension::AreaDensity,
            Some(("g", "m2")),
            PrefixGroup::SI,
            ONE,
            &[Dimension::Mass],
            &[Dimension::Length, Dimension::Length],
        ),
    );
    v.push(
        make_quotient(
            "g/m3",
            Dimension::Density,
            Some(("g", "m3")),
            PrefixGroup::SI,
            ONE,
            &[Dimension::Mass],
            &[Dimension::Length, Dimension::Length, Dimension::Length],
        ),
    );
    v.push(
        make_quotient(
            "m/s",
            Dimension::Velocity,
            Some(("m", "s")),
            PrefixGroup::SI,
            ONE,
            &[Dimension::Length],
            &[Dimension::Time],
        ),
    );
    v.push(
        make_quotient(
            "m/s2",
            Dimension::Acceleration,
            Some(("m", "s2")),
            PrefixGroup::SI,
            ONE,
            &[Dimension::Length],
            &[Dimension::Time, Dimension::Time],
        ),
    );
    v.push(
        make_quotient(
            "m/s3",
            Dimension::Jerk,
            Some(("m", "s3")),
            PrefixGroup::SI,
            ONE,
            &[Dimension::Length],
            &[Dimension::Time, Dimension::Time, Dimension::Time],
        ),
    );
    v.push(
        make_quotient(
            "m/s4",
            Dimension::Snap,
            Some(("m", "s4")),
            PrefixGroup::SI,
            ONE,
            &[Dimension::Length],
            &[Dimension::Time, Dimension::Time, Dimension::Time, Dimension::Time],
        ),
    );
    v.push(
        make_quotient(
            "m/s5",
            Dimension::Crackle,
            Some(("m", "s5")),
            PrefixGroup::SI,
            ONE,
            &[Dimension::Length],
            &[Dimension::Time, Dimension::Time, Dimension::Time, Dimension::Time, Dimension::Time],
        ),
    );
    v.push(
        make_quotient(
            "m/s6",
            Dimension::Pop,
            Some(("m", "s6")),
            PrefixGroup::SI,
            ONE,
            &[Dimension::Length],
            &[Dimension::Time, Dimension::Time, Dimension::Time, Dimension::Time, Dimension::Time, Dimension::Time],
        ),
    );
    v.push(make_scaled("b", Dimension::Size, PrefixGroup::SI, BIT_IN_BYTES));
    v.push(make_scaled("B", Dimension::Size, PrefixGroup::SI, ONE));
    v.push(
        make_quotient(
            "bit/s",
            Dimension::BitRate,
            Some(("bit", "s")),
            PrefixGroup::SI,
            BIT_IN_BYTES,
            &[Dimension::Size],
            &[Dimension::Time],
        ),
    );
    v.push(
        make_quotient(
            "B/s",
            Dimension::BitRate,
            Some(("B", "s")),
            PrefixGroup::SI,
            ONE,
            &[Dimension::Size],
            &[Dimension::Time],
        ),
    );
    assert(unit_views(v@) =~~= unit_views(old(v)@) + metric_units());
}

fn push_customary_units(v: &mut Vec<UnitDef>)
    ensures
        unit_views(final(v)@) == unit_views(old(v)@) + customary_units(),
{
    v.push(make_scaled("t", Dimension::Mass, PrefixGroup::NoPrefix, TONNE_IN_GRAMS));
    v.push(make_scaled("ft", Dimension::Length, PrefixGroup::NoPrefix, FOOT_IN_METRES));
    v.push(make_scaled("mi", Dimension::Length, PrefixGroup::NoPrefix, MILE_IN_METRES));
    v.push(make_scaled("in", Dimension::Length, PrefixGroup::NoPrefix, INCH_IN_METRES));
    v.push(make_scaled("em", Dimension::Length, PrefixGroup::NoPrefix, ONE));
    v.push(make_scaled("rem", Dimension::Length, PrefixGroup::NoPrefix, ONE));
    v.push(make_scaled("pt", Dimension::Length, PrefixGroup::NoPrefix, POINT_IN_METRES));
    v.push(make_scaled("pc", Dimension::Length, PrefixGroup::NoPrefix, PICA_IN_METRES));
    v.push(make_scaled("px", Dimension::Length, PrefixGroup::NoPrefix, ONE));
    assert(unit_views(v@) =~~= unit_views(old(v)@) + customary_units());
}

fn push_calendar_units(v: &mut Vec<UnitDef>)
    ensures
        unit_views(final(v)@) == unit_views(old(v)@) + calendar_units(),
{
    v.push(make_scaled("min", Dimension::Time, PrefixGroup::NoPrefix, MINUTE_IN_SECONDS));
    v.push(make_scaled("hour", Dimension::Time, PrefixGroup::NoPrefix, HOUR_IN_SECONDS));
    v.push(make_scaled("day", Dimension::Time, PrefixGroup::NoPrefix, DAY_IN_SECONDS));
    v.push(make_scaled("week", Dimension::Time, PrefixGroup::NoPrefix, WEEK_IN_SECONDS));
    v.push(make_scaled("month", Dimension::Time, PrefixGroup::NoPrefix, MONTH_IN_SECONDS));
    v.push(make_scaled("year", Dimension::Time, PrefixGroup::NoPrefix, YEAR_IN_SECONDS));
    assert(unit_views(v@) =~~= unit_views(old(v)@) + calendar_units());
}

fn push_speed_units(v: &mut Vec<UnitDef>)
    ensures
        unit_views(final(v)@) == unit_views(old(v)@) + speed_units(),
{
    v.push(
        make_quotient(
            "ft/s",
            Dimension::Velocity,
            Some(("m", "s")),
            PrefixGroup::NoPrefix,
            FOOT_IN_METRES,
            &[Dimension::Length],
            &[Dimension::Time],
        ),
    );
    v.push(
        make_quotient(
            "mi/h",
            Dimension::Velocity,
            Some(("m", "s")),
            PrefixGroup::NoPrefix,
            MILE_PER_HOUR,
            &[Dimension::Length],
            &[Dimension::Time],
        ),
    );
    v.push(
        make_quotient(
            "kn",
            Dimension::Velocity,
            Some(("m", "s")),
            PrefixGroup::NoPrefix,
            KNOT,
            &[Dimension::Length],
            &[Dimension::Time],
        ),
    );
    assert(unit_views(v@) =~~= unit_views(old(v)@) + speed_units());
}

fn push_temperature_units(v: &mut Vec<UnitDef>)
    ensures
        unit_views(final(v)@) == unit_views(old(v)@) + temperature_units(),
{
    v.push(make_scaled("K", Dimension::Temperature, PrefixGroup::NoPrefix, ONE));
    v.push(make_thermal("degC", ONE, FREEZING_POINT, CalcMode::Linear));
    v.push(make_thermal("\u{00B0}C", ONE, FREEZING_POINT, CalcMode::Linear));
    v.push(make_thermal("degF", FIVE_NINTHS, FAHRENHEIT_ZERO, CalcMode::Linear));
    v.push(make_thermal("\u{00B0}F", FIVE_NINTHS, FAHRENHEIT_ZERO, CalcMode::Linear));
    v.push(make_thermal("degRa", FIVE_NINTHS, ZERO, CalcMode::Linear));
    v.push(make_thermal("\u{00B0}Ra", FIVE_NINTHS, ZERO, CalcMode::Linear));
    v.push(make_thermal("degN", NEWTON_DEGREE, FREEZING_POINT, CalcMode::Linear));
    v.push(make_thermal("\u{00B0}N", NEWTON_DEGREE, FREEZING_POINT, CalcMode::Linear));
    v.push(make_thermal("degD", DELISLE_DEGREE, BOILING_POINT, CalcMode::Linear));
    v.push(make_thermal("\u{00B0}D", DELISLE_DEGREE, BOILING_POINT, CalcMode::Linear));
    v.push(make_thermal("degRe", REAUMUR_DEGREE, FREEZING_POINT, CalcMode::Linear));
    v.push(make_thermal("\u{00B0}Re", REAUMUR_DEGREE, FREEZING_POINT, CalcMode::Linear));
    v.push(make_thermal("degRo", ROMER_DEGREE, ROMER_ZERO, CalcMode::Linear));
    v.push(make_thermal("\u{00B0}Ro", ROMER_DEGREE, ROMER_ZERO, CalcMode::Linear));
    v.push(make_thermal("degL", ONE, LEIDEN_ZERO, CalcMode::Linear));
    v.push(make_thermal("\u{00B0}L", ONE, LEIDEN_ZERO, CalcMode::Linear));
    v.push(make_thermal("degW", WEDGWOOD_DEGREE, WEDGWOOD_ZERO, CalcMode::Linear));
    v.push(make_thermal("\u{00B0}W", WEDGWOOD_DEGREE, WEDGWOOD_ZERO, CalcMode::Linear));
    v.push(make_thermal("degDa", BOILING_POINT, FREEZING_POINT, CalcMode::Exponential));
    v.push(make_thermal("\u{00B0}Da", BOILING_POINT, FREEZING_POINT, CalcMode::Exponential));
    assert(unit_views(v@) =~~= unit_views(old(v)@) + temperature_units());
}

fn push_other_units(v: &mut Vec<UnitDef>)
    ensures
        unit_views(final(v)@) == unit_views(old(v)@) + other_units(),
{
    v.push(make_scaled("%", Dimension::Percent, PrefixGroup::NoPrefix, PERCENT));
    v.push(make_scaled("fr", Dimension::Fraction, PrefixGroup::NoPrefix, ONE));
    v.push(make_scaled("deg", Dimension::Degree, PrefixGroup::NoPrefix, DEGREE_IN_RADIANS));
    v.push(
        make_scaled("\u{00B0}", Dimension::Degree, PrefixGroup::NoPrefix, DEGREE_IN_RADIANS),
    );
    v.push(make_scaled("rad", Dimension::Radian, PrefixGroup::NoPrefix, ONE));
    v.push(make_scaled("D", Dimension::Dimension, PrefixGroup::NoPrefix, ONE));
    assert(unit_views(v@) =~~= unit_views(old(v)@) + other_units());
}

/// Builds the catalog.
pub fn units() -> (v: Vec<UnitDef>)
    ensures
        unit_views(v@) == catalog(),
{
    let mut v: Vec<UnitDef> = Vec::new();
    assert(unit_views(v@) =~= Seq::empty());
    push_metric_units(&mut v);
    push_customary_units(&mut v);
    push_calendar_units(&mut v);
    push_speed_units(&mut v);
    push_temperature_units(&mut v);
    push_other_units(&mut v);
    assert(unit_views(v@) =~= catalog());
    v
}

/// Index of the first unit of `units`, at or after index `from`, whose
/// symbol is `symbol`.
pub open spec fn first_index(units: Seq<UnitDefView>, symbol: Seq<char>, from: int) -> Option<int>
    decreases units.len() - from,
{
    if from < 0 || from >= units.len() {
        None
    } else if units[from].symbol == symbol {
        Some(from)
    } else {
        first_index(units, symbol, from + 1)
    }
}

/// Looks `symbol` up in `units`: the first unit with exactly that symbol.
pub fn lookup<'a>(units: &'a Vec<UnitDef>, symbol: &str) -> (found: Option<&'a UnitDef>)
    ensures
        match first_index(unit_views(units@), symbol@, 0) {
            Some(i) => found == Some(&units@[i]),
            None => found is None,
        },
{
    let mut i: usize = 0;
    while i < units.len()
        invariant
            i <= units.len(),
            first_index(unit_views(units@), symbol@, i as int) == first_index(
                unit_views(units@),
                symbol@,
                0,
            ),
        decreases units.len() - i,
    {
        if same_text(units[i].symbol, symbol) {
            return Some(&units[i]);
        }
        i = i + 1;
    }
    None
}

} // verus!
