use lacon_rust_parser::interpretator::functions::format::{
    apply_format, format_found, format_function, format_with_spec, parse_arguments, parse_value,
    process_format_call, FormatValue,
};
use lacon_rust_parser::interpretator::patterns::regex_source;

fn text(s: &str) -> FormatValue {
    FormatValue::String(s.to_string())
}

fn same(a: &FormatValue, b: &FormatValue) -> bool {
    match (a, b) {
        (FormatValue::String(x), FormatValue::String(y)) => x == y,
        (FormatValue::Integer(x), FormatValue::Integer(y)) => x == y,
        (FormatValue::Hex(x), FormatValue::Hex(y)) => x == y,
        _ => false,
    }
}

fn same_list(a: &[FormatValue], b: &[FormatValue]) -> bool {
    a.len() == b.len() && a.iter().zip(b.iter()).all(|(x, y)| same(x, y))
}

#[test]
fn values_as_text() {
    assert_eq!(text("abc").as_str(), "abc");
    assert_eq!(FormatValue::Integer(0).as_str(), "0");
    assert_eq!(FormatValue::Integer(42).as_str(), "42");
    assert_eq!(FormatValue::Integer(-7).as_str(), "-7");
    assert_eq!(FormatValue::Integer(i64::MAX).as_str(), "9223372036854775807");
    assert_eq!(FormatValue::Integer(i64::MIN).as_str(), "-9223372036854775808");
    assert_eq!(FormatValue::Hex(255).as_str(), "0xFF");
    assert_eq!(FormatValue::Hex(0).as_str(), "0x0");
    assert_eq!(FormatValue::Hex(-1).as_str(), "0xFFFFFFFFFFFFFFFF");
    for n in [0i64, 1, 9, 10, -10, 255, 4096, -4096, i64::MAX, i64::MIN, 1234567890123] {
        assert_eq!(FormatValue::Integer(n).as_str(), n.to_string());
        assert_eq!(FormatValue::Hex(n).as_str(), format!("{:#X}", n));
    }
}

#[test]
fn one_argument_is_read_by_its_shape() {
    assert!(same(&parse_value("\"hi\"").unwrap(), &text("hi")));
    assert!(same(&parse_value("\"\"").unwrap(), &text("")));
    assert!(same(&parse_value("\"").unwrap(), &text("\"")));
    assert!(same(&parse_value("0x1F").unwrap(), &FormatValue::Hex(31)));
    assert!(same(&parse_value("0Xff").unwrap(), &FormatValue::Hex(255)));
    assert!(same(&parse_value("0x-1").unwrap(), &FormatValue::Hex(-1)));
    assert!(same(&parse_value("42").unwrap(), &FormatValue::Integer(42)));
    assert!(same(&parse_value("-42").unwrap(), &FormatValue::Integer(-42)));
    assert!(same(&parse_value("+42").unwrap(), &FormatValue::Integer(42)));
    assert!(same(&parse_value("4 2").unwrap(), &text("4 2")));
    assert!(same(&parse_value("abc").unwrap(), &text("abc")));
    assert!(same(&parse_value("99999999999999999999").unwrap(), &text("99999999999999999999")));
}

#[test]
fn hexadecimal_argument_that_cannot_be_read() {
    assert_eq!(
        parse_value("0xZZ").unwrap_err(),
        "Failed to parse hex number '0xZZ': invalid digit found in string"
    );
    assert_eq!(
        parse_value("0x").unwrap_err(),
        "Failed to parse hex number '0x': cannot parse integer from empty string"
    );
    assert_eq!(
        parse_value("0xFFFFFFFFFFFFFFFFF").unwrap_err(),
        "Failed to parse hex number '0xFFFFFFFFFFFFFFFFF': number too large to fit in target type"
    );
    assert_eq!(
        parse_value("0x-FFFFFFFFFFFFFFFFF").unwrap_err(),
        "Failed to parse hex number '0x-FFFFFFFFFFFFFFFFF': number too small to fit in target type"
    );
}

#[test]
fn arguments_are_split_at_commas_outside_quotes() {
    let args = parse_arguments("\"a, b\", 42, 0x10,plain").unwrap();
    assert!(same_list(
        &args,
        &[text("a, b"), FormatValue::Integer(42), FormatValue::Hex(16), text("plain")]
    ));
    assert!(same_list(&parse_arguments("").unwrap(), &[]));
    assert!(same_list(&parse_arguments("  ").unwrap(), &[]));
    assert!(same_list(&parse_arguments(",,").unwrap(), &[]));
    assert!(same_list(&parse_arguments(" 1 ,  2  ").unwrap(), &[
        FormatValue::Integer(1),
        FormatValue::Integer(2)
    ]));
    assert!(same_list(&parse_arguments("a,,b").unwrap(), &[text("a"), text("b")]));
    assert_eq!(
        parse_arguments("1, 0xG, 3").unwrap_err(),
        "Failed to parse hex number '0xG': invalid digit found in string"
    );
}

#[test]
fn place_with_a_specification() {
    let n = FormatValue::Integer(255);
    assert_eq!(format_with_spec(&n, "").unwrap(), "255");
    assert_eq!(format_with_spec(&n, ":X").unwrap(), "FF");
    assert_eq!(format_with_spec(&n, ":x").unwrap(), "ff");
    assert_eq!(format_with_spec(&n, ":08X").unwrap(), "000000FF");
    assert_eq!(format_with_spec(&n, "08x").unwrap(), "000000ff");
    assert_eq!(format_with_spec(&n, ":6").unwrap(), "   255");
    assert_eq!(format_with_spec(&n, ":2").unwrap(), "255");
    assert_eq!(format_with_spec(&n, ":::5").unwrap(), "  255");
    assert_eq!(format_with_spec(&n, ":0").unwrap(), "255");
    assert_eq!(format_with_spec(&n, ":d").unwrap(), "255");
    assert_eq!(format_with_spec(&n, ":99999999999999999999999X").unwrap(), "FF");
    let h = FormatValue::Hex(255);
    assert_eq!(format_with_spec(&h, "").unwrap(), "0xFF");
    assert_eq!(format_with_spec(&h, ":x").unwrap(), "ff");
    assert_eq!(format_with_spec(&h, ":6").unwrap(), "  0xFF");
    assert_eq!(format_with_spec(&FormatValue::Integer(-1), ":x").unwrap(), "ffffffffffffffff");
    let s = text("\u{00E9}");
    assert_eq!(format_with_spec(&s, ":4").unwrap(), "  \u{00E9}");
    assert_eq!(format_with_spec(&s, ":X").unwrap(), "\u{00E9}");
    assert_eq!(format_with_spec(&text("ab"), ":05").unwrap(), "000ab");
}

#[test]
fn pattern_is_filled_in_order() {
    let args = [text("x"), FormatValue::Integer(7), FormatValue::Hex(16)];
    assert_eq!(format_function("{} = {} ({})", &args).unwrap(), "x = 7 (0x10)");
    assert_eq!(format_function("{}{:03}{:x}", &args).unwrap(), "x00710");
    assert_eq!(format_function("plain", &args).unwrap(), "plain");
    assert_eq!(format_function("", &args).unwrap(), "");
    assert_eq!(format_function("a {open", &args).unwrap(), "a {open");
    assert_eq!(format_function("{} and {unclosed", &args).unwrap(), "x and {unclosed");
    assert_eq!(format_function("}{}{", &args).unwrap(), "}x{");
}

#[test]
fn pattern_with_too_few_values() {
    assert_eq!(
        format_function("{} {}", &[text("x")]).unwrap_err(),
        "Not enough arguments: pattern requires at least 2, but only 1 provided"
    );
    assert_eq!(
        format_function("{}", &[]).unwrap_err(),
        "Not enough arguments: pattern requires at least 1, but only 0 provided"
    );
}

#[test]
fn pattern_and_arguments_as_text() {
    assert_eq!(apply_format("{}-{}", "\"a\", 0x1F").unwrap(), "a-0x1F");
    assert_eq!(
        apply_format("{}", "0x").unwrap_err(),
        "Failed to parse hex number '0x': cannot parse integer from empty string"
    );
}

#[test]
fn groups_of_a_match_are_pattern_and_arguments() {
    let groups = vec![
        Some("@format(\"{}\", 1)".to_string()),
        Some("{}!".to_string()),
        Some("1".to_string()),
    ];
    assert_eq!(format_found(Some(groups)).unwrap(), "1!");
    assert_eq!(format_found(None).unwrap_err(), "Invalid format call");
    assert_eq!(format_found(Some(vec![])).unwrap_err(), "Invalid format call");
    assert_eq!(
        format_found(Some(vec![Some("x".to_string()), None, Some("1".to_string())])).unwrap_err(),
        "Invalid format call"
    );
}

#[test]
fn call_of_format_is_evaluated() {
    assert_eq!(
        process_format_call("@format(\"{} has {:04} items ({:x})\", \"box\", 42, 0xFF)").unwrap(),
        "box has 0042 items (ff)"
    );
    assert_eq!(process_format_call("@format(\"{}\", 7)").unwrap(), "7");
    assert_eq!(process_format_call("@format(\"{}\",7)").unwrap(), "7");
    assert_eq!(process_format_call("format(\"{}\", 7)").unwrap_err(), "Invalid format call");
    assert_eq!(process_format_call("@format(\"{}\")").unwrap_err(), "Invalid format call");
    assert_eq!(process_format_call(" @format(\"{}\", 7)").unwrap_err(), "Invalid format call");
    assert_eq!(process_format_call("").unwrap_err(), "Invalid format call");
    assert_eq!(
        process_format_call("@format(\"{} {}\", 7)").unwrap_err(),
        "Not enough arguments: pattern requires at least 2, but only 1 provided"
    );
}

#[test]
fn patterns_are_found_by_name() {
    assert_eq!(regex_source("format"), Some("^@format\\(\"([^\"]*)\",\\s*(.+)\\)$"));
    assert_eq!(regex_source("number"), Some("^-?\\d+(\\.\\d+)?$"));
    assert_eq!(regex_source("export"), Some("^@export\\s+(.+)$"));
    assert_eq!(
        regex_source("import"),
        Some("^@import\\s+(=)?\\s*(?:\"([^\"]+)\"|([^\\s\"{}|[\\]]+))")
    );
    assert_eq!(regex_source("Format"), None);
    assert_eq!(regex_source(""), None);
    for name in [
        "import",
        "format",
        "if_elif_else",
        "export",
        "export_multiline",
        "export_array",
        "export_block",
        "var",
        "block_start",
        "multi_key",
        "multiline_start",
        "array_start",
        "find_keys",
        "number",
    ] {
        assert!(regex_source(name).is_some(), "{name}");
    }
}
