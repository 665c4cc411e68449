use lacon_rust_parser::lexer::error::LexicalErrorType;
use lacon_rust_parser::lexer::position::Position;
use lacon_rust_parser::lexer::scanner::{scan, Scanner};
use lacon_rust_parser::lexer::token::Token;
use lacon_rust_parser::lexer::token_type::TokenType;

fn scan_all(source: &str) -> (Vec<Token>, Scanner) {
    let mut scanner = Scanner::new(source.to_string());
    let tokens = scanner.scan_tokens().clone();
    (tokens, scanner)
}

fn kinds(source: &str) -> Vec<(TokenType, String)> {
    scan_all(source).0.iter().map(|t| (t.token_type, t.lexeme.clone())).collect()
}

fn only_kinds(source: &str) -> Vec<TokenType> {
    scan_all(source).0.iter().map(|t| t.token_type).collect()
}

fn literals(source: &str) -> Vec<(TokenType, String, Option<String>)> {
    scan_all(source).0.iter().map(|t| (t.token_type, t.lexeme.clone(), t.literal.clone())).collect()
}

fn tok(kind: TokenType, lexeme: &str) -> (TokenType, String) {
    (kind, lexeme.to_string())
}

fn lit(kind: TokenType, lexeme: &str, literal: &str) -> (TokenType, String, Option<String>) {
    (kind, lexeme.to_string(), Some(literal.to_string()))
}

fn bare(kind: TokenType, lexeme: &str) -> (TokenType, String, Option<String>) {
    (kind, lexeme.to_string(), None)
}

const SAMPLES: [&str; 14] = [
    "",
    "a",
    "a\n    b\n        c\nd\n",
    "a\n\tb\n  c\n",
    "  x",
    "\"unclosed",
    "\"a${b}c\"",
    "f(\n      x,\n  y)\n    z\n",
    "/* never closed",
    "a\n    b\n  c\n      d",
    "\u{1F600} 10xyz 20\u{00B0}C",
    "\n\n   \n",
    "} ] ) ${ }",
    "a\r\n    b\r\n",
];

#[test]
fn stream_is_framed_by_bof_and_eof() {
    for source in SAMPLES {
        let kinds = only_kinds(source);
        assert!(kinds.len() >= 2, "{source:?}");
        assert_eq!(kinds[0], TokenType::BOF, "{source:?}");
        assert_eq!(kinds[kinds.len() - 1], TokenType::EOF, "{source:?}");
        assert_eq!(kinds.iter().filter(|k| **k == TokenType::BOF).count(), 1, "{source:?}");
        assert_eq!(kinds.iter().filter(|k| **k == TokenType::EOF).count(), 1, "{source:?}");
    }
}

#[test]
fn indents_and_dedents_are_balanced() {
    for source in SAMPLES {
        let mut depth: i64 = 0;
        for kind in only_kinds(source) {
            if kind == TokenType::Indent {
                depth += 1;
            }
            if kind == TokenType::Dedent {
                depth -= 1;
            }
            assert!(depth >= 0, "{source:?}");
        }
        assert_eq!(depth, 0, "{source:?}");
    }
}

#[test]
fn empty_text_gives_the_frame_alone() {
    let (tokens, scanner) = scan_all("");
    assert_eq!(tokens.len(), 2);
    assert_eq!(tokens[0].token_type, TokenType::BOF);
    assert_eq!(tokens[1].token_type, TokenType::EOF);
    assert_eq!(tokens[1].position, Position::new(1, 1, 0));
    assert!(scanner.errors.is_empty());
}

#[test]
fn unknown_suffix_backtracks_to_a_bare_number() {
    assert_eq!(
        literals("10xyz"),
        vec![
            bare(TokenType::BOF, ""),
            lit(TokenType::Number, "10", "10"),
            bare(TokenType::Identifier, "xyz"),
            bare(TokenType::EOF, ""),
        ]
    );
}

#[test]
fn known_suffixes_make_unit_literals() {
    let cases: Vec<(&str, TokenType, &str)> = vec![
        ("10px", TokenType::UnitLength, "10"),
        ("1.5MJ", TokenType::UnitEnergy, "1.5"),
        ("50%", TokenType::UnitPercent, "50"),
        ("278mi/h", TokenType::UnitSpeed, "278"),
        ("25pc", TokenType::UnitLength, "25"),
        ("15kW", TokenType::UnitElectricPower, "15"),
        ("2D", TokenType::UnitDimension, "2"),
        ("20\u{00B0}C", TokenType::UnitTemperature, "20"),
        ("20degDa", TokenType::UnitTemperature, "20"),
        ("90\u{00B0}", TokenType::UnitDegree, "90"),
        ("5\u{00B5}m", TokenType::UnitLength, "5"),
        ("5\u{03BC}s", TokenType::UnitTime, "5"),
        ("10\u{03A9}", TokenType::UnitElectricResistance, "10"),
        ("3GHz", TokenType::UnitFrequency, "3"),
        ("8GB", TokenType::UnitSize, "8"),
        ("70kg", TokenType::UnitWeight, "70"),
        ("12V", TokenType::UnitElectricVoltage, "12"),
        ("2mA", TokenType::UnitElectricCurrent, "2"),
        ("1uC", TokenType::UnitElectricCharge, "1"),
        ("4mS", TokenType::UnitElectricConductance, "4"),
        ("47nF", TokenType::UnitElectricCapacitance, "47"),
        ("1013hPa", TokenType::UnitPressure, "1013"),
        ("3month", TokenType::UnitTime, "3"),
    ];
    for (source, kind, value) in cases {
        assert_eq!(
            literals(source),
            vec![bare(TokenType::BOF, ""), lit(kind, source, value), bare(TokenType::EOF, "")],
            "{source:?}"
        );
    }
}

#[test]
fn number_forms() {
    assert_eq!(
        literals("1.x"),
        vec![
            bare(TokenType::BOF, ""),
            lit(TokenType::Number, "1", "1"),
            bare(TokenType::Dot, "."),
            bare(TokenType::Identifier, "x"),
            bare(TokenType::EOF, ""),
        ]
    );
    assert_eq!(
        literals("3.14"),
        vec![bare(TokenType::BOF, ""), lit(TokenType::Number, "3.14", "3.14"), bare(TokenType::EOF, "")]
    );
    assert_eq!(
        literals("10m/x"),
        vec![
            bare(TokenType::BOF, ""),
            lit(TokenType::Number, "10", "10"),
            bare(TokenType::Identifier, "m"),
            bare(TokenType::Slash, "/"),
            bare(TokenType::Identifier, "x"),
            bare(TokenType::EOF, ""),
        ]
    );
}

#[test]
fn hyphen_inside_a_name_belongs_to_it() {
    assert_eq!(
        kinds("a-b"),
        vec![tok(TokenType::BOF, ""), tok(TokenType::Identifier, "a-b"), tok(TokenType::EOF, "")]
    );
    assert_eq!(
        kinds("const-name"),
        vec![tok(TokenType::BOF, ""), tok(TokenType::Identifier, "const-name"), tok(TokenType::EOF, "")]
    );
}

#[test]
fn hyphen_between_blanks_is_an_operator() {
    // The blank between `a` and `-` stands for an assignment, so it shows
    // in the stream; the hyphen itself is an operator between two names.
    assert_eq!(
        kinds("a - b"),
        vec![
            tok(TokenType::BOF, ""),
            tok(TokenType::Identifier, "a"),
            tok(TokenType::Whitespace, ""),
            tok(TokenType::Minus, "-"),
            tok(TokenType::Identifier, "b"),
            tok(TokenType::EOF, ""),
        ]
    );
    let without_blanks: Vec<TokenType> = only_kinds("a - b")
        .into_iter()
        .filter(|k| *k != TokenType::Whitespace && *k != TokenType::BOF && *k != TokenType::EOF)
        .collect();
    assert_eq!(without_blanks, vec![TokenType::Identifier, TokenType::Minus, TokenType::Identifier]);
}

#[test]
fn hyphen_before_other_characters() {
    assert_eq!(
        kinds("a->b"),
        vec![
            tok(TokenType::BOF, ""),
            tok(TokenType::Identifier, "a"),
            tok(TokenType::Arrow, "->"),
            tok(TokenType::Identifier, "b"),
            tok(TokenType::EOF, ""),
        ]
    );
    assert_eq!(
        kinds("a-1"),
        vec![
            tok(TokenType::BOF, ""),
            tok(TokenType::Identifier, "a"),
            tok(TokenType::Minus, "-"),
            tok(TokenType::Number, "1"),
            tok(TokenType::EOF, ""),
        ]
    );
    assert_eq!(
        kinds("a -b"),
        vec![
            tok(TokenType::BOF, ""),
            tok(TokenType::Identifier, "a"),
            tok(TokenType::Whitespace, ""),
            tok(TokenType::Identifier, "-b"),
            tok(TokenType::EOF, ""),
        ]
    );
    assert_eq!(
        kinds("winter-${x}"),
        vec![
            tok(TokenType::BOF, ""),
            tok(TokenType::Identifier, "winter-"),
            tok(TokenType::DollarLeftBrace, "${"),
            tok(TokenType::Identifier, "x"),
            tok(TokenType::RightBrace, "}"),
            tok(TokenType::EOF, ""),
        ]
    );
}

#[test]
fn interpolation_splits_a_string() {
    let (tokens, scanner) = scan_all("\"a${b}c\"");
    let seen: Vec<(TokenType, String, Option<String>)> =
        tokens.iter().map(|t| (t.token_type, t.lexeme.clone(), t.literal.clone())).collect();
    assert_eq!(
        seen,
        vec![
            bare(TokenType::BOF, ""),
            lit(TokenType::String, "\"a", "a"),
            bare(TokenType::DollarLeftBrace, "${"),
            bare(TokenType::Identifier, "b"),
            bare(TokenType::RightBrace, "}"),
            lit(TokenType::String, "c\"", "c"),
            bare(TokenType::EOF, ""),
        ]
    );
    assert_eq!(scanner.interpolation_depth(), 0);
    assert!(scanner.errors.is_empty());
}

#[test]
fn two_interpolations_and_an_escaped_one() {
    assert_eq!(
        literals("\"x ${a} and ${b}, \\${c}\""),
        vec![
            bare(TokenType::BOF, ""),
            lit(TokenType::String, "\"x ", "x "),
            bare(TokenType::DollarLeftBrace, "${"),
            bare(TokenType::Identifier, "a"),
            bare(TokenType::RightBrace, "}"),
            lit(TokenType::String, " and ", " and "),
            bare(TokenType::DollarLeftBrace, "${"),
            bare(TokenType::Identifier, "b"),
            bare(TokenType::RightBrace, "}"),
            lit(TokenType::String, ", \\${c}\"", ", \\${c}"),
            bare(TokenType::EOF, ""),
        ]
    );
}

#[test]
fn interpolation_left_open_stays_on_the_stack() {
    let (_, scanner) = scan_all("\"a${b");
    assert_eq!(scanner.interpolation_depth(), 1);
}

#[test]
fn string_kinds() {
    assert_eq!(
        literals("\"d\" 's' `g`"),
        vec![
            bare(TokenType::BOF, ""),
            lit(TokenType::String, "\"d\"", "d"),
            bare(TokenType::Whitespace, ""),
            lit(TokenType::SingleQuotedString, "'s'", "s"),
            bare(TokenType::Whitespace, ""),
            lit(TokenType::GraveQuotedString, "`g`", "g"),
            bare(TokenType::EOF, ""),
        ]
    );
    assert_eq!(
        literals("\"\""),
        vec![bare(TokenType::BOF, ""), lit(TokenType::String, "\"\"", ""), bare(TokenType::EOF, "")]
    );
    assert_eq!(
        literals("\"say \\\"hi\\\"\""),
        vec![
            bare(TokenType::BOF, ""),
            lit(TokenType::String, "\"say \\\"hi\\\"\"", "say \\\"hi\\\""),
            bare(TokenType::EOF, ""),
        ]
    );
}

#[test]
fn multiline_string_keeps_its_lines() {
    let source = "\"\"\"\n  one\n  \"two\"\n\"\"\"";
    assert_eq!(
        literals(source),
        vec![
            bare(TokenType::BOF, ""),
            lit(TokenType::MultilineString, source, "\n  one\n  \"two\"\n"),
            bare(TokenType::EOF, ""),
        ]
    );
}

#[test]
fn unterminated_string_is_reported_and_scanning_goes_on() {
    let (tokens, scanner) = scan_all("\"abc");
    let seen: Vec<(TokenType, String)> =
        tokens.iter().map(|t| (t.token_type, t.lexeme.clone())).collect();
    assert_eq!(
        seen,
        vec![tok(TokenType::BOF, ""), tok(TokenType::Error, "\"abc"), tok(TokenType::EOF, "")]
    );
    assert_eq!(scanner.errors.len(), 1);
    assert_eq!(scanner.errors[0].error_type, LexicalErrorType::UnterminatedString);
    assert_eq!(scanner.errors[0].message, "Unclosed string");
    assert_eq!(scanner.errors[0].position, Position::new(1, 1, 0));
    assert_eq!(scanner.diagnostics().len(), 1);
}

#[test]
fn string_broken_by_a_line_feed() {
    let (tokens, scanner) = scan_all("x \"abc\ny");
    let seen: Vec<(TokenType, String)> =
        tokens.iter().map(|t| (t.token_type, t.lexeme.clone())).collect();
    assert_eq!(
        seen,
        vec![
            tok(TokenType::BOF, ""),
            tok(TokenType::Identifier, "x"),
            tok(TokenType::Whitespace, ""),
            tok(TokenType::Error, "\"abc"),
            tok(TokenType::Newline, ""),
            tok(TokenType::Identifier, "y"),
            tok(TokenType::EOF, ""),
        ]
    );
    assert_eq!(scanner.errors.len(), 1);
    assert_eq!(scanner.errors[0].error_type, LexicalErrorType::UnterminatedString);
    assert_eq!(scanner.errors[0].position, Position::new(1, 3, 2));
}

#[test]
fn unterminated_multiline_string() {
    let (tokens, scanner) = scan_all("\"\"\"abc\n\"\"");
    assert_eq!(tokens[1].token_type, TokenType::Error);
    assert_eq!(tokens[tokens.len() - 1].token_type, TokenType::EOF);
    assert_eq!(scanner.errors.len(), 1);
}

#[test]
fn character_that_no_rule_accepts() {
    let (tokens, scanner) = scan_all("a \u{1F600} b");
    let seen: Vec<(TokenType, String)> =
        tokens.iter().map(|t| (t.token_type, t.lexeme.clone())).collect();
    assert_eq!(
        seen,
        vec![
            tok(TokenType::BOF, ""),
            tok(TokenType::Identifier, "a"),
            tok(TokenType::Error, "\u{1F600}"),
            tok(TokenType::Identifier, "b"),
            tok(TokenType::EOF, ""),
        ]
    );
    assert_eq!(scanner.errors.len(), 1);
    assert_eq!(scanner.errors[0].error_type, LexicalErrorType::InvalidCharacter('\u{1F600}'));
    assert_eq!(scanner.errors[0].message, "Unexpected character");
    assert_eq!(scanner.errors[0].position, Position::new(1, 3, 2));
    assert_eq!(tokens[2].length, 4);
    assert_eq!(tokens[3].position, Position::new(1, 5, 7));
}

#[test]
fn every_error_has_its_placeholder() {
    for source in SAMPLES {
        let (tokens, scanner) = scan_all(source);
        let placeholders: Vec<Position> = tokens
            .iter()
            .filter(|t| t.token_type == TokenType::Error)
            .map(|t| t.position)
            .collect();
        let reported: Vec<Position> = scanner.errors.iter().map(|e| e.position).collect();
        assert_eq!(placeholders, reported, "{source:?}");
    }
}

#[test]
fn indentation_opens_and_closes_blocks() {
    assert_eq!(
        only_kinds("a\n    b\n        c\nd\n"),
        vec![
            TokenType::BOF,
            TokenType::Identifier,
            TokenType::Newline,
            TokenType::Indent,
            TokenType::Identifier,
            TokenType::Newline,
            TokenType::Indent,
            TokenType::Identifier,
            TokenType::Newline,
            TokenType::Dedent,
            TokenType::Dedent,
            TokenType::Identifier,
            TokenType::Newline,
            TokenType::EOF,
        ]
    );
}

#[test]
fn blocks_open_at_the_end_are_closed() {
    assert_eq!(
        only_kinds("a\n  b\n    c"),
        vec![
            TokenType::BOF,
            TokenType::Identifier,
            TokenType::Newline,
            TokenType::Indent,
            TokenType::Identifier,
            TokenType::Newline,
            TokenType::Indent,
            TokenType::Identifier,
            TokenType::Dedent,
            TokenType::Dedent,
            TokenType::EOF,
        ]
    );
}

#[test]
fn tab_counts_four_columns() {
    assert_eq!(
        only_kinds("a\n\tb\n    c\n"),
        vec![
            TokenType::BOF,
            TokenType::Identifier,
            TokenType::Newline,
            TokenType::Indent,
            TokenType::Identifier,
            TokenType::Newline,
            TokenType::Identifier,
            TokenType::Newline,
            TokenType::Dedent,
            TokenType::EOF,
        ]
    );
}

#[test]
fn blank_and_comment_lines_leave_the_blocks() {
    assert_eq!(
        only_kinds("a\n    b\n\n  \n/|\\ note\n    c\n"),
        vec![
            TokenType::BOF,
            TokenType::Identifier,
            TokenType::Newline,
            TokenType::Indent,
            TokenType::Identifier,
            TokenType::Newline,
            TokenType::Newline,
            TokenType::Newline,
            TokenType::Newline,
            TokenType::Identifier,
            TokenType::Newline,
            TokenType::Dedent,
            TokenType::EOF,
        ]
    );
    assert_eq!(only_kinds("a\n   "), vec![
        TokenType::BOF,
        TokenType::Identifier,
        TokenType::Newline,
        TokenType::EOF,
    ]);
}

#[test]
fn open_bracket_suspends_indentation() {
    assert_eq!(
        only_kinds("f(\n        x,\n  y)\nz"),
        vec![
            TokenType::BOF,
            TokenType::Identifier,
            TokenType::LeftParen,
            TokenType::Newline,
            TokenType::Identifier,
            TokenType::Comma,
            TokenType::Newline,
            TokenType::Identifier,
            TokenType::RightParen,
            TokenType::Newline,
            TokenType::Identifier,
            TokenType::EOF,
        ]
    );
}

#[test]
fn dedent_to_an_unknown_width_is_reported() {
    let (tokens, scanner) = scan_all("a\n    b\n  c\n");
    let seen: Vec<TokenType> = tokens.iter().map(|t| t.token_type).collect();
    assert_eq!(
        seen,
        vec![
            TokenType::BOF,
            TokenType::Identifier,
            TokenType::Newline,
            TokenType::Indent,
            TokenType::Identifier,
            TokenType::Newline,
            TokenType::Dedent,
            TokenType::Error,
            TokenType::Identifier,
            TokenType::Newline,
            TokenType::EOF,
        ]
    );
    assert_eq!(scanner.errors.len(), 1);
    assert_eq!(scanner.errors[0].error_type, LexicalErrorType::InvalidIndent);
    assert_eq!(scanner.errors[0].message, "Inconsistent indentation");
    assert_eq!(scanner.errors[0].position, Position::new(3, 1, 8));
}

#[test]
fn blank_between_key_and_value_is_an_assignment() {
    assert_eq!(
        kinds("key value"),
        vec![
            tok(TokenType::BOF, ""),
            tok(TokenType::Identifier, "key"),
            tok(TokenType::Whitespace, ""),
            tok(TokenType::Identifier, "value"),
            tok(TokenType::EOF, ""),
        ]
    );
    assert_eq!(
        only_kinds("key = value"),
        vec![
            TokenType::BOF,
            TokenType::Identifier,
            TokenType::Equal,
            TokenType::Identifier,
            TokenType::EOF,
        ]
    );
    assert_eq!(
        only_kinds("10px   #fff"),
        vec![
            TokenType::BOF,
            TokenType::UnitLength,
            TokenType::Whitespace,
            TokenType::Hash,
            TokenType::Identifier,
            TokenType::EOF,
        ]
    );
    assert_eq!(
        only_kinds("let x"),
        vec![TokenType::BOF, TokenType::Let, TokenType::Identifier, TokenType::EOF]
    );
    assert_eq!(
        only_kinds("x \n"),
        vec![TokenType::BOF, TokenType::Identifier, TokenType::Newline, TokenType::EOF]
    );
    assert_eq!(
        only_kinds("x /|\\ note"),
        vec![TokenType::BOF, TokenType::Identifier, TokenType::EOF]
    );
}

#[test]
fn comments_give_no_token() {
    assert_eq!(
        only_kinds("x = 10 / 2 /* halves */ + 5 /|\\ sum"),
        vec![
            TokenType::BOF,
            TokenType::Identifier,
            TokenType::Equal,
            TokenType::Number,
            TokenType::Slash,
            TokenType::Number,
            TokenType::Plus,
            TokenType::Number,
            TokenType::EOF,
        ]
    );
    let (tokens, scanner) = scan_all("a /* never closed\n b");
    assert_eq!(tokens.len(), 3);
    assert!(scanner.errors.is_empty());
}

#[test]
fn reserved_words_and_operators() {
    assert_eq!(
        only_kinds("if a == b && !c { return true } else { x += 1 }"),
        vec![
            TokenType::BOF,
            TokenType::If,
            TokenType::Identifier,
            TokenType::EqualEqual,
            TokenType::Identifier,
            TokenType::AndAnd,
            TokenType::Bang,
            TokenType::Identifier,
            TokenType::Whitespace,
            TokenType::LeftBrace,
            TokenType::Return,
            TokenType::True,
            TokenType::RightBrace,
            TokenType::Whitespace,
            TokenType::Else,
            TokenType::LeftBrace,
            TokenType::Identifier,
            TokenType::PlusEqual,
            TokenType::Number,
            TokenType::RightBrace,
            TokenType::EOF,
        ]
    );
    assert_eq!(
        only_kinds("a ... b .. c . d :: e"),
        vec![
            TokenType::BOF,
            TokenType::Identifier,
            TokenType::Ellipsis,
            TokenType::Identifier,
            TokenType::DotDot,
            TokenType::Identifier,
            TokenType::Dot,
            TokenType::Identifier,
            TokenType::ColonColon,
            TokenType::Identifier,
            TokenType::EOF,
        ]
    );
}

#[test]
fn positions_and_lengths_count_bytes() {
    let (tokens, _) = scan_all("\u{00E9}t\u{00E9} = 5\u{00B5}m\nb");
    let seen: Vec<(TokenType, Position, u32)> =
        tokens.iter().map(|t| (t.token_type, t.position, t.length)).collect();
    assert_eq!(
        seen,
        vec![
            (TokenType::BOF, Position::new(1, 1, 0), 0),
            (TokenType::Identifier, Position::new(1, 1, 0), 5),
            (TokenType::Equal, Position::new(1, 5, 6), 1),
            (TokenType::UnitLength, Position::new(1, 7, 8), 4),
            (TokenType::Newline, Position::new(1, 10, 12), 0),
            (TokenType::Identifier, Position::new(2, 1, 13), 1),
            (TokenType::EOF, Position::new(2, 2, 14), 0),
        ]
    );
}

#[test]
fn scan_gives_what_the_scanner_gives() {
    for source in SAMPLES {
        let (tokens, scanner) = scan_all(source);
        let (same_tokens, same_errors) = scan(source).expect("the text is short");
        assert_eq!(tokens, same_tokens, "{source:?}");
        assert_eq!(scanner.errors, same_errors, "{source:?}");
    }
}

#[test]
fn a_longer_text() {
    let source = "container App\n    styles {\n        width: 100%\n    padding: 20px\n          color: #fff\n    }\n\n    logic\n        if status == \"active\"\n            opacity -1.0\n        else\n            opacity 0\n";
    let (tokens, scanner) = scan_all(source);
    assert!(scanner.errors.is_empty());
    let kinds: Vec<TokenType> = tokens.iter().map(|t| t.token_type).collect();
    assert_eq!(kinds.iter().filter(|k| **k == TokenType::Indent).count(), 4);
    assert_eq!(kinds.iter().filter(|k| **k == TokenType::Dedent).count(), 4);
    assert_eq!(kinds.iter().filter(|k| **k == TokenType::UnitPercent).count(), 1);
    assert_eq!(kinds.iter().filter(|k| **k == TokenType::UnitLength).count(), 1);
    assert_eq!(kinds.iter().filter(|k| **k == TokenType::String).count(), 1);
    let text: String = tokens.iter().map(|t| t.lexeme.as_str()).collect::<Vec<&str>>().join("");
    let stripped: String = source.chars().filter(|c| *c != ' ' && *c != '\n').collect();
    assert_eq!(text, stripped);
}

#[test]
fn interpolated_expression_is_ordinary_code() {
    assert_eq!(
        literals("\"a${f(x, 1)}b\""),
        vec![
            bare(TokenType::BOF, ""),
            lit(TokenType::String, "\"a", "a"),
            bare(TokenType::DollarLeftBrace, "${"),
            bare(TokenType::Identifier, "f"),
            bare(TokenType::LeftParen, "("),
            bare(TokenType::Identifier, "x"),
            bare(TokenType::Comma, ","),
            lit(TokenType::Number, "1", "1"),
            bare(TokenType::RightParen, ")"),
            bare(TokenType::RightBrace, "}"),
            lit(TokenType::String, "b\"", "b"),
            bare(TokenType::EOF, ""),
        ]
    );
}

#[test]
fn interpolation_in_other_strings() {
    assert_eq!(
        literals("'a${b}'"),
        vec![
            bare(TokenType::BOF, ""),
            lit(TokenType::SingleQuotedString, "'a", "a"),
            bare(TokenType::DollarLeftBrace, "${"),
            bare(TokenType::Identifier, "b"),
            bare(TokenType::RightBrace, "}"),
            lit(TokenType::SingleQuotedString, "'", ""),
            bare(TokenType::EOF, ""),
        ]
    );
    assert_eq!(
        literals("\"\"\"a\n${b}\nc\"\"\""),
        vec![
            bare(TokenType::BOF, ""),
            lit(TokenType::MultilineString, "\"\"\"a\n", "a\n"),
            bare(TokenType::DollarLeftBrace, "${"),
            bare(TokenType::Identifier, "b"),
            bare(TokenType::RightBrace, "}"),
            lit(TokenType::MultilineString, "\nc\"\"\"", "\nc"),
            bare(TokenType::EOF, ""),
        ]
    );
}

#[test]
fn carriage_return_is_passed_over() {
    assert_eq!(
        only_kinds("a\r\n    b\r\n"),
        vec![
            TokenType::BOF,
            TokenType::Identifier,
            TokenType::Newline,
            TokenType::Indent,
            TokenType::Identifier,
            TokenType::Newline,
            TokenType::Dedent,
            TokenType::EOF,
        ]
    );
}

#[test]
fn tokens_are_well_formed_and_in_order() {
    for source in SAMPLES {
        let (tokens, _) = scan_all(source);
        let mut last = 0;
        for t in &tokens {
            let carries = t.token_type.is_string()
                || t.token_type.is_unit()
                || t.token_type == TokenType::Number;
            assert_eq!(t.literal.is_some(), carries, "{source:?}");
            assert_eq!(t.length as usize, t.lexeme.len(), "{source:?}");
            assert!(t.position.offset >= last, "{source:?}");
            last = t.position.offset;
        }
    }
}
