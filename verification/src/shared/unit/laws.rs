//! What holds of the catalog: the two spellings of the degree, `deg` and the
//! degree sign, name the same units, and every conversion can be undone.

use super::definition::UnitDefView;
use super::props::{CalcMode, Real};
use super::units::{
    calendar_units, catalog, customary_units, first_index, metric_units, other_units,
    speed_units, temperature_units,
};
use vstd::prelude::*;

verus! {

/// Index of `scale` among the temperature scales of the catalog.
pub open spec fn scale_index(scale: Seq<char>) -> Option<int> {
    if scale == "C"@ {
        Some(0int)
    } else if scale == "F"@ {
        Some(1int)
    } else if scale == "Ra"@ {
        Some(2int)
    } else if scale == "N"@ {
        Some(3int)
    } else if scale == "D"@ {
        Some(4int)
    } else if scale == "Re"@ {
        Some(5int)
    } else if scale == "Ro"@ {
        Some(6int)
    } else if scale == "L"@ {
        Some(7int)
    } else if scale == "W"@ {
        Some(8int)
    } else if scale == "Da"@ {
        Some(9int)
    } else {
        None
    }
}

/// A symbol is a spelling of the degree with something behind it: it begins
/// with `deg` or with the degree sign.
spec fn spells_degree(symbol: Seq<char>) -> bool {
    (symbol.len() >= 3 && symbol[0] == 'd' && symbol[1] == 'e' && symbol[2] == 'g') || (
    symbol.len() >= 1 && symbol[0] == '\u{00B0}')
}

/// Where a symbol is first found in two lists, one behind the other: in the
/// first list, or else behind it, where it is found in the second.
proof fn lemma_first_index_of_both(
    a: Seq<UnitDefView>,
    b: Seq<UnitDefView>,
    symbol: Seq<char>,
    from: int,
)
    requires
        0 <= from <= a.len() + b.len(),
    ensures
        first_index(a + b, symbol, from) == if from < a.len() {
            match first_index(a, symbol, from) {
                Some(i) => Some(i),
                None => match first_index(b, symbol, 0) {
                    Some(j) => Some(a.len() + j),
                    None => None,
                },
            }
        } else {
            match first_index(b, symbol, from - a.len()) {
                Some(j) => Some(a.len() + j),
                None => None,
            }
        },
    decreases a.len() + b.len() - from,
{
    if from < a.len() + b.len() {
        lemma_first_index_of_both(a, b, symbol, from + 1);
        if from < a.len() {
            assert((a + b)[from] == a[from]);
        } else {
            assert((a + b)[from] == b[from - a.len()]);
        }
    }
}

proof fn lemma_no_degree_in_metric_units(symbol: Seq<char>)
    requires
        spells_degree(symbol),
    ensures
        first_index(metric_units(), symbol, 0) is None,
{
    reveal_with_fuel(first_index, 18);
    reveal_strlit("Hz");
    reveal_strlit("g");
    reveal_strlit("m");
    reveal_strlit("s");
    reveal_strlit("mol");
    reveal_strlit("g/m2");
    reveal_strlit("g/m3");
    reveal_strlit("m/s");
    reveal_strlit("m/s2");
    reveal_strlit("m/s3");
    reveal_strlit("m/s4");
    reveal_strlit("m/s5");
    reveal_strlit("m/s6");
    reveal_strlit("b");
    reveal_strlit("B");
    reveal_strlit("bit/s");
    reveal_strlit("B/s");
}

proof fn lemma_no_degree_in_customary_units(symbol: Seq<char>)
    requires
        spells_degree(symbol),
    ensures
        first_index(customary_units(), symbol, 0) is None,
{
    reveal_with_fuel(first_index, 10);
    reveal_strlit("t");
    reveal_strlit("ft");
    reveal_strlit("mi");
    reveal_strlit("in");
    reveal_strlit("em");
    reveal_strlit("rem");
    reveal_strlit("pt");
    reveal_strlit("pc");
    reveal_strlit("px");
}

proof fn lemma_no_degree_in_calendar_units(symbol: Seq<char>)
    requires
        spells_degree(symbol),
    ensures
        first_index(calendar_units(), symbol, 0) is None,
{
    reveal_with_fuel(first_index, 7);
    reveal_strlit("min");
    reveal_strlit("hour");
    reveal_strlit("day");
    reveal_strlit("week");
    reveal_strlit("month");
    reveal_strlit("year");
}

proof fn lemma_no_degree_in_speed_units(symbol: Seq<char>)
    requires
        spells_degree(symbol),
    ensures
        first_index(speed_units(), symbol, 0) is None,
{
    reveal_with_fuel(first_index, 4);
    reveal_strlit("ft/s");
    reveal_strlit("mi/h");
    reveal_strlit("kn");
}

/// What the texts `deg` + scale and degree sign + scale hold.
proof fn lemma_spellings(scale: Seq<char>)
    ensures
        ("deg"@ + scale).len() == 3 + scale.len(),
        ("deg"@ + scale)[0] == 'd',
        ("deg"@ + scale)[1] == 'e',
        ("deg"@ + scale)[2] == 'g',
        ("deg"@ + scale).skip(3) == scale,
        ("\u{00B0}"@ + scale).len() == 1 + scale.len(),
        ("\u{00B0}"@ + scale)[0] == '\u{00B0}',
        ("\u{00B0}"@ + scale).skip(1) == scale,
        spells_degree("deg"@ + scale),
        spells_degree("\u{00B0}"@ + scale),
{
    reveal_strlit("deg");
    reveal_strlit("\u{00B0}");
    assert(("deg"@ + scale).skip(3) =~= scale);
    assert(("\u{00B0}"@ + scale).skip(1) =~= scale);
}

/// Each temperature symbol is a spelling of the degree with its scale
/// behind it.
proof fn lemma_scale_symbols()
    ensures
        "degC"@.skip(3) == "C"@,
        "\u{00B0}C"@.skip(1) == "C"@,
        "degC"@ == "deg"@ + "C"@,
        "\u{00B0}C"@ == "\u{00B0}"@ + "C"@,
        "degF"@.skip(3) == "F"@,
        "\u{00B0}F"@.skip(1) == "F"@,
        "degF"@ == "deg"@ + "F"@,
        "\u{00B0}F"@ == "\u{00B0}"@ + "F"@,
        "degRa"@.skip(3) == "Ra"@,
        "\u{00B0}Ra"@.skip(1) == "Ra"@,
        "degRa"@ == "deg"@ + "Ra"@,
        "\u{00B0}Ra"@ == "\u{00B0}"@ + "Ra"@,
        "degN"@.skip(3) == "N"@,
        "\u{00B0}N"@.skip(1) == "N"@,
        "degN"@ == "deg"@ + "N"@,
        "\u{00B0}N"@ == "\u{00B0}"@ + "N"@,
        "degD"@.skip(3) == "D"@,
        "\u{00B0}D"@.skip(1) == "D"@,
        "degD"@ == "deg"@ + "D"@,
        "\u{00B0}D"@ == "\u{00B0}"@ + "D"@,
        "degRe"@.skip(3) == "Re"@,
        "\u{00B0}Re"@.skip(1) == "Re"@,
        "degRe"@ == "deg"@ + "Re"@,
        "\u{00B0}Re"@ == "\u{00B0}"@ + "Re"@,
        "degRo"@.skip(3) == "Ro"@,
        "\u{00B0}Ro"@.skip(1) == "Ro"@,
        "degRo"@ == "deg"@ + "Ro"@,
        "\u{00B0}Ro"@ == "\u{00B0}"@ + "Ro"@,
        "degL"@.skip(3) == "L"@,
        "\u{00B0}L"@.skip(1) == "L"@,
        "degL"@ == "deg"@ + "L"@,
        "\u{00B0}L"@ == "\u{00B0}"@ + "L"@,
        "degW"@.skip(3) == "W"@,
        "\u{00B0}W"@.skip(1) == "W"@,
        "degW"@ == "deg"@ + "W"@,
        "\u{00B0}W"@ == "\u{00B0}"@ + "W"@,
        "degDa"@.skip(3) == "Da"@,
        "\u{00B0}Da"@.skip(1) == "Da"@,
        "degDa"@ == "deg"@ + "Da"@,
        "\u{00B0}Da"@ == "\u{00B0}"@ + "Da"@,
{
    reveal_strlit("deg");
    reveal_strlit("\u{00B0}");
    reveal_strlit("C");
    reveal_strlit("F");
    reveal_strlit("Ra");
    reveal_strlit("N");
    reveal_strlit("D");
    reveal_strlit("Re");
    reveal_strlit("Ro");
    reveal_strlit("L");
    reveal_strlit("W");
    reveal_strlit("Da");
    reveal_strlit("degC");
    reveal_strlit("degF");
    reveal_strlit("degRa");
    reveal_strlit("degN");
    reveal_strlit("degD");
    reveal_strlit("degRe");
    reveal_strlit("degRo");
    reveal_strlit("degL");
    reveal_strlit("degW");
    reveal_strlit("degDa");
    reveal_strlit("\u{00B0}C");
    reveal_strlit("\u{00B0}F");
    reveal_strlit("\u{00B0}Ra");
    reveal_strlit("\u{00B0}N");
    reveal_strlit("\u{00B0}D");
    reveal_strlit("\u{00B0}Re");
    reveal_strlit("\u{00B0}Ro");
    reveal_strlit("\u{00B0}L");
    reveal_strlit("\u{00B0}W");
    reveal_strlit("\u{00B0}Da");
    assert("degC"@.skip(3) =~= "C"@);
    assert("\u{00B0}C"@.skip(1) =~= "C"@);
    assert("degC"@ =~= "deg"@ + "C"@);
    assert("\u{00B0}C"@ =~= "\u{00B0}"@ + "C"@);
    assert("degF"@.skip(3) =~= "F"@);
    assert("\u{00B0}F"@.skip(1) =~= "F"@);
    assert("degF"@ =~= "deg"@ + "F"@);
    assert("\u{00B0}F"@ =~= "\u{00B0}"@ + "F"@);
    assert("degRa"@.skip(3) =~= "Ra"@);
    assert("\u{00B0}Ra"@.skip(1) =~= "Ra"@);
    assert("degRa"@ =~= "deg"@ + "Ra"@);
    assert("\u{00B0}Ra"@ =~= "\u{00B0}"@ + "Ra"@);
    assert("degN"@.skip(3) =~= "N"@);
    assert("\u{00B0}N"@.skip(1) =~= "N"@);
    assert("degN"@ =~= "deg"@ + "N"@);
    assert("\u{00B0}N"@ =~= "\u{00B0}"@ + "N"@);
    assert("degD"@.skip(3) =~= "D"@);
    assert("\u{00B0}D"@.skip(1) =~= "D"@);
    assert("degD"@ =~= "deg"@ + "D"@);
    assert("\u{00B0}D"@ =~= "\u{00B0}"@ + "D"@);
    assert("degRe"@.skip(3) =~= "Re"@);
    assert("\u{00B0}Re"@.skip(1) =~= "Re"@);
    assert("degRe"@ =~= "deg"@ + "Re"@);
    assert("\u{00B0}Re"@ =~= "\u{00B0}"@ + "Re"@);
    assert("degRo"@.skip(3) =~= "Ro"@);
    assert("\u{00B0}Ro"@.skip(1) =~= "Ro"@);
    assert("degRo"@ =~= "deg"@ + "Ro"@);
    assert("\u{00B0}Ro"@ =~= "\u{00B0}"@ + "Ro"@);
    assert("degL"@.skip(3) =~= "L"@);
    assert("\u{00B0}L"@.skip(1) =~= "L"@);
    assert("degL"@ =~= "deg"@ + "L"@);
    assert("\u{00B0}L"@ =~= "\u{00B0}"@ + "L"@);
    assert("degW"@.skip(3) =~= "W"@);
    assert("\u{00B0}W"@.skip(1) =~= "W"@);
    assert("degW"@ =~= "deg"@ + "W"@);
    assert("\u{00B0}W"@ =~= "\u{00B0}"@ + "W"@);
    assert("degDa"@.skip(3) =~= "Da"@);
    assert("\u{00B0}Da"@.skip(1) =~= "Da"@);
    assert("degDa"@ =~= "deg"@ + "Da"@);
    assert("\u{00B0}Da"@ =~= "\u{00B0}"@ + "Da"@);
}

proof fn lemma_degree_in_temperature_units(scale: Seq<char>)
    ensures
        first_index(temperature_units(), "deg"@ + scale, 0) == match scale_index(scale) {
            Some(k) => Some(1 + 2 * k),
            None => None,
        },
        first_index(temperature_units(), "\u{00B0}"@ + scale, 0) == match scale_index(scale) {
            Some(k) => Some(2 + 2 * k),
            None => None,
        },
{
    reveal_with_fuel(first_index, 22);
    lemma_spellings(scale);
    lemma_scale_symbols();
    reveal_strlit("K");
    reveal_strlit("C");
    reveal_strlit("F");
    reveal_strlit("Ra");
    reveal_strlit("N");
    reveal_strlit("D");
    reveal_strlit("Re");
    reveal_strlit("Ro");
    reveal_strlit("L");
    reveal_strlit("W");
    reveal_strlit("Da");
    reveal_strlit("degC");
    reveal_strlit("degF");
    reveal_strlit("degRa");
    reveal_strlit("degN");
    reveal_strlit("degD");
    reveal_strlit("degRe");
    reveal_strlit("degRo");
    reveal_strlit("degL");
    reveal_strlit("degW");
    reveal_strlit("degDa");
    reveal_strlit("\u{00B0}C");
    reveal_strlit("\u{00B0}F");
    reveal_strlit("\u{00B0}Ra");
    reveal_strlit("\u{00B0}N");
    reveal_strlit("\u{00B0}D");
    reveal_strlit("\u{00B0}Re");
    reveal_strlit("\u{00B0}Ro");
    reveal_strlit("\u{00B0}L");
    reveal_strlit("\u{00B0}W");
    reveal_strlit("\u{00B0}Da");
}

proof fn lemma_degree_in_other_units(scale: Seq<char>)
    ensures
        first_index(other_units(), "deg"@ + scale, 0) == if scale.len() == 0 {
            Some(2int)
        } else {
            None
        },
        first_index(other_units(), "\u{00B0}"@ + scale, 0) == if scale.len() == 0 {
            Some(3int)
        } else {
            None
        },
{
    reveal_with_fuel(first_index, 7);
    lemma_spellings(scale);
    reveal_strlit("%");
    reveal_strlit("fr");
    reveal_strlit("deg");
    reveal_strlit("\u{00B0}");
    reveal_strlit("rad");
    reveal_strlit("D");
    if scale.len() == 0 {
        assert("deg"@ + scale =~= "deg"@);
        assert("\u{00B0}"@ + scale =~= "\u{00B0}"@);
    }
}

/// Where the two spellings of a degree are found in the catalog.
proof fn lemma_degree_in_catalog(scale: Seq<char>)
    ensures
        first_index(catalog(), "deg"@ + scale, 0) == match scale_index(scale) {
            Some(k) => Some(36 + 2 * k),
            None => if scale.len() == 0 {
                Some(58int)
            } else {
                None
            },
        },
        first_index(catalog(), "\u{00B0}"@ + scale, 0) == match scale_index(scale) {
            Some(k) => Some(37 + 2 * k),
            None => if scale.len() == 0 {
                Some(59int)
            } else {
                None
            },
        },
{
    let long = "deg"@ + scale;
    let short = "\u{00B0}"@ + scale;
    lemma_spellings(scale);
    let a = metric_units();
    let b = a + customary_units();
    let c = b + calendar_units();
    let d = c + speed_units();
    let e = d + temperature_units();
    lemma_no_degree_in_metric_units(long);
    lemma_no_degree_in_metric_units(short);
    lemma_no_degree_in_customary_units(long);
    lemma_no_degree_in_customary_units(short);
    lemma_no_degree_in_calendar_units(long);
    lemma_no_degree_in_calendar_units(short);
    lemma_no_degree_in_speed_units(long);
    lemma_no_degree_in_speed_units(short);
    lemma_degree_in_temperature_units(scale);
    lemma_degree_in_other_units(scale);
    lemma_first_index_of_both(a, customary_units(), long, 0);
    lemma_first_index_of_both(a, customary_units(), short, 0);
    lemma_first_index_of_both(b, calendar_units(), long, 0);
    lemma_first_index_of_both(b, calendar_units(), short, 0);
    lemma_first_index_of_both(c, speed_units(), long, 0);
    lemma_first_index_of_both(c, speed_units(), short, 0);
    lemma_first_index_of_both(d, temperature_units(), long, 0);
    lemma_first_index_of_both(d, temperature_units(), short, 0);
    lemma_first_index_of_both(e, other_units(), long, 0);
    lemma_first_index_of_both(e, other_units(), short, 0);
    reveal_strlit("C");
    reveal_strlit("F");
    reveal_strlit("Ra");
    reveal_strlit("N");
    reveal_strlit("D");
    reveal_strlit("Re");
    reveal_strlit("Ro");
    reveal_strlit("L");
    reveal_strlit("W");
    reveal_strlit("Da");
}

/// Whatever stands behind the degree, its two spellings, `deg` and the
/// degree sign, name the same unit: the catalog holds both or neither, and
/// where it holds them, they have the same dimension and the same
/// properties, bit for bit.
pub proof fn lemma_degree_spellings_agree(scale: Seq<char>)
    ensures
        first_index(catalog(), "deg"@ + scale, 0) is Some <==> first_index(
            catalog(),
            "\u{00B0}"@ + scale,
            0,
        ) is Some,
        first_index(catalog(), "deg"@ + scale, 0) is Some ==> {
            let long = catalog()[first_index(catalog(), "deg"@ + scale, 0)->0];
            let short = catalog()[first_index(catalog(), "\u{00B0}"@ + scale, 0)->0];
            &&& long.dimension == short.dimension
            &&& long.props == short.props
            &&& long.numerator_group == short.numerator_group
            &&& long.denominator_group == short.denominator_group
        },
{
    lemma_degree_in_catalog(scale);
}

/// The bits of a zero, with either sign.
pub open spec fn is_zero(number: Real) -> bool {
    number.bits == 0 || number.bits == 0x8000_0000_0000_0000
}

/// A unit's conversion can be undone where its scale is not zero and, for an
/// exponential unit, its offset is not zero either and differs from its
/// scale: then no step of the way back divides by zero or takes a logarithm
/// to the base 1.
pub open spec fn invertible(unit: UnitDefView) -> bool {
    &&& !is_zero(unit.props.scale)
    &&& unit.props.mode == CalcMode::Exponential ==> !is_zero(unit.props.offset)
        && unit.props.scale != unit.props.offset
}

proof fn lemma_invertible_in(units: Seq<UnitDefView>, i: int)
    requires
        0 <= i < units.len(),
        units == metric_units() || units == customary_units() || units == calendar_units()
            || units == speed_units() || units == temperature_units() || units == other_units(),
    ensures
        invertible(units[i]),
{
}

/// The conversion of every unit of the catalog can be undone.
pub proof fn lemma_conversions_can_be_undone(i: int)
    requires
        0 <= i < catalog().len(),
    ensures
        invertible(catalog()[i]),
{
    let a = metric_units();
    let b = customary_units();
    let c = calendar_units();
    let d = speed_units();
    let e = temperature_units();
    let f = other_units();
    if i < 17 {
        lemma_invertible_in(a, i);
    } else if i < 26 {
        lemma_invertible_in(b, i - 17);
    } else if i < 32 {
        lemma_invertible_in(c, i - 26);
    } else if i < 35 {
        lemma_invertible_in(d, i - 32);
    } else if i < 56 {
        lemma_invertible_in(e, i - 35);
    } else {
        lemma_invertible_in(f, i - 56);
    }
}

} // verus!
