use lacon_rust_parser::shared::unit::definition::{PrefixGroup, UnitDef};
use lacon_rust_parser::shared::unit::dimensions::Dimension;
use lacon_rust_parser::shared::unit::props::{CalcMode, Formula, UnitProps, ONE, ZERO};
use lacon_rust_parser::shared::unit::units::{lookup, units};

fn number(bits: u64) -> f64 {
    f64::from_bits(bits)
}

fn normalize(def: &UnitDef, value: f64) -> f64 {
    let scale = number(def.props.scale.bits);
    let offset = number(def.props.offset.bits);
    match def.props.mode {
        CalcMode::Linear => value * scale + offset,
        CalcMode::Exponential => offset * (scale / offset).powf(value / 100.0),
    }
}

fn denormalize(def: &UnitDef, base: f64) -> f64 {
    let scale = number(def.props.scale.bits);
    let offset = number(def.props.offset.bits);
    match def.props.mode {
        CalcMode::Linear => (base - offset) / scale,
        CalcMode::Exponential => 100.0 * (base / offset).log(scale / offset),
    }
}

#[test]
fn test_degc_units_exist() {
    let catalog = units();
    let degc = catalog.iter().find(|u| u.symbol == "degC");
    let degree_c = catalog.iter().find(|u| u.symbol == "\u{00B0}C");

    assert!(degc.is_some(), "degC unit not found");
    assert!(degree_c.is_some(), "°C unit not found");

    let degc = degc.unwrap();
    let degree_c = degree_c.unwrap();

    assert!(matches!(degc.dimension, Dimension::Temperature));
    assert!(matches!(degree_c.dimension, Dimension::Temperature));

    assert_eq!(degc.props.scale, degree_c.props.scale);
    assert_eq!(degc.props.offset, degree_c.props.offset);

    println!("✓ degC symbol: {}", degc.symbol);
    println!("✓ °C symbol: {}", degree_c.symbol);
}

#[test]
fn lookup_finds_exact_symbols_only() {
    let catalog = units();
    assert_eq!(catalog.len(), 62);
    assert_eq!(lookup(&catalog, "m").map(|u| u.symbol), Some("m"));
    assert_eq!(lookup(&catalog, "m/s2").map(|u| u.dimension), Some(Dimension::Acceleration));
    assert_eq!(lookup(&catalog, "km").map(|u| u.symbol), None);
    assert_eq!(lookup(&catalog, "M").map(|u| u.symbol), None);
    assert_eq!(lookup(&catalog, "").map(|u| u.symbol), None);
    assert_eq!(lookup(&catalog, "m ").map(|u| u.symbol), None);
}

#[test]
fn lookup_takes_the_first_of_equal_symbols() {
    let first = UnitDef::new(
        "x",
        Dimension::Length,
        None,
        PrefixGroup::SI,
        PrefixGroup::NoPrefix,
        UnitProps::standard(),
    );
    let second = UnitDef::new(
        "x",
        Dimension::Time,
        Some(("a", "b")),
        PrefixGroup::Metric,
        PrefixGroup::Digital,
        UnitProps::standard(),
    );
    let list = vec![first, second];
    let found = lookup(&list, "x").unwrap();
    assert_eq!(found.dimension, Dimension::Length);
    assert_eq!(found.numerator_group, PrefixGroup::SI);
    assert_eq!(found.denominator_group, PrefixGroup::NoPrefix);
    assert_eq!(found.parts, None);
    assert_eq!(list[1].parts, Some(("a", "b")));
    assert_eq!(found.get_props().scale.bits, ONE);
    assert_eq!(found.get_props().offset.bits, ZERO);
}

#[test]
fn both_spellings_of_the_non_linear_scale_agree() {
    let catalog = units();
    let long = lookup(&catalog, "degDa").expect("degDa");
    let short = lookup(&catalog, "\u{00B0}Da").expect("°Da");
    assert_eq!(long.props.mode, CalcMode::Exponential);
    assert_eq!(short.props.mode, CalcMode::Exponential);
    assert_eq!(long.props.scale, short.props.scale);
    assert_eq!(long.props.offset, short.props.offset);
    assert_eq!(number(long.props.scale.bits), 373.15);
    assert_eq!(number(long.props.offset.bits), 273.15);
}

#[test]
fn both_spellings_of_every_scale_agree() {
    let catalog = units();
    for scale in ["", "C", "F", "Ra", "N", "D", "Re", "Ro", "L", "W", "Da"] {
        let long = lookup(&catalog, &format!("deg{scale}")).expect("long spelling");
        let short = lookup(&catalog, &format!("\u{00B0}{scale}")).expect("short spelling");
        assert_eq!(long.dimension, short.dimension, "{scale}");
        assert_eq!(long.props.scale, short.props.scale, "{scale}");
        assert_eq!(long.props.offset, short.props.offset, "{scale}");
        assert_eq!(long.props.mode, short.props.mode, "{scale}");
        assert_eq!(long.numerator_group, short.numerator_group, "{scale}");
    }
    assert!(lookup(&catalog, "degH").is_none());
    assert!(lookup(&catalog, "\u{00B0}H").is_none());
}

#[test]
fn scales_and_offsets_hold_the_catalogued_numbers() {
    let catalog = units();
    let expect: Vec<(&str, f64, f64)> = vec![
        ("m", 1.0, 0.0),
        ("b", 0.125, 0.0),
        ("bit/s", 0.125, 0.0),
        ("t", 1e6, 0.0),
        ("ft", 0.3048, 0.0),
        ("mi", 1609.344, 0.0),
        ("in", 0.0254, 0.0),
        ("pt", 0.000352778, 0.0),
        ("pc", 0.004233333, 0.0),
        ("min", 60.0, 0.0),
        ("hour", 3600.0, 0.0),
        ("day", 86400.0, 0.0),
        ("week", 604800.0, 0.0),
        ("month", 2629746.0, 0.0),
        ("year", 31556952.0, 0.0),
        ("ft/s", 0.3048, 0.0),
        ("mi/h", 0.44704, 0.0),
        ("kn", 0.514444, 0.0),
        ("K", 1.0, 0.0),
        ("degC", 1.0, 273.15),
        ("degF", 5.0 / 9.0, 255.37222222222222),
        ("degRa", 5.0 / 9.0, 0.0),
        ("degN", 100.0 / 33.0, 273.15),
        ("degD", -2.0 / 3.0, 373.15),
        ("degRe", 1.25, 273.15),
        ("degRo", 40.0 / 21.0, 258.864286),
        ("degL", 1.0, 20.15),
        ("degW", 24.857191, 542.15),
        ("degDa", 373.15, 273.15),
        ("%", 0.01, 0.0),
        ("deg", 0.017453292519943295, 0.0),
        ("rad", 1.0, 0.0),
    ];
    for (symbol, scale, offset) in expect {
        let def = lookup(&catalog, symbol).expect(symbol);
        assert_eq!(number(def.props.scale.bits), scale, "{symbol}");
        assert_eq!(number(def.props.offset.bits), offset, "{symbol}");
    }
}

#[test]
fn catalog_holds_dimensions_parts_and_formulas() {
    let catalog = units();
    let hz = lookup(&catalog, "Hz").unwrap();
    assert_eq!(hz.dimension, Dimension::Frequency);
    assert_eq!(hz.numerator_group, PrefixGroup::SI);
    match hz.props.formula {
        Formula::Complex { num, den } => {
            assert!(num.is_empty());
            assert_eq!(den, &[Dimension::Time]);
        }
        _ => panic!("Hz is a quotient"),
    }
    let pop = lookup(&catalog, "m/s6").unwrap();
    assert_eq!(pop.dimension, Dimension::Pop);
    assert_eq!(pop.parts, Some(("m", "s6")));
    match pop.props.formula {
        Formula::Complex { num, den } => {
            assert_eq!(num, &[Dimension::Length]);
            assert_eq!(den.len(), 6);
        }
        _ => panic!("m/s6 is a quotient"),
    }
    let knot = lookup(&catalog, "kn").unwrap();
    assert_eq!(knot.parts, Some(("m", "s")));
    assert_eq!(knot.numerator_group, PrefixGroup::NoPrefix);
    let celsius = lookup(&catalog, "degC").unwrap();
    assert_eq!(celsius.denominator_group, PrefixGroup::Thermal);
    assert!(matches!(celsius.props.formula, Formula::Dimensionless));
    assert_eq!(catalog[0].symbol, "Hz");
    assert_eq!(catalog[61].symbol, "D");
    assert_eq!(lookup(&catalog, "D").unwrap().dimension, Dimension::Dimension);
    assert_eq!(lookup(&catalog, "deg").unwrap().dimension, Dimension::Degree);
}

#[test]
fn linear_units_convert_there_and_back() {
    let catalog = units();
    for def in catalog.iter().filter(|d| d.props.mode == CalcMode::Linear) {
        for x in [0.0, 1.0, 50.0, 100.0, -40.0, 1234.5] {
            let back = denormalize(def, normalize(def, x));
            assert!((back - x).abs() <= 1e-9 * (1.0 + x.abs()), "{}: {x} -> {back}", def.symbol);
        }
    }
    let celsius = lookup(&catalog, "degC").unwrap();
    assert_eq!(normalize(celsius, 0.0), 273.15);
    assert_eq!(normalize(celsius, 100.0), 373.15);
    let foot = lookup(&catalog, "ft").unwrap();
    assert_eq!(normalize(foot, 10.0), 3.048);
}

#[test]
fn exponential_unit_converts_there_and_back() {
    let catalog = units();
    let dalton = lookup(&catalog, "degDa").unwrap();
    for x in [0.0, 50.0, 100.0] {
        let back = denormalize(dalton, normalize(dalton, x));
        assert!((back - x).abs() <= 1e-9, "{x} -> {back}");
    }
    assert!((normalize(dalton, 0.0) - 273.15).abs() <= 1e-9);
    assert!((normalize(dalton, 100.0) - 373.15).abs() <= 1e-9);
}

#[test]
fn prefix_patterns() {
    assert_eq!(PrefixGroup::SI.regex_pattern(), "(?:da|[QRYZEPTGMkhdcm\u{03BC}npfazyrq])");
    assert_eq!(PrefixGroup::Thermal.regex_pattern(), "(?:deg|\u{00B0})");
    assert_eq!(PrefixGroup::NoPrefix.regex_pattern(), "");
    assert_eq!(PrefixGroup::Metric.regex_pattern(), "");
    assert_eq!(PrefixGroup::Digital.regex_pattern(), "");
}
