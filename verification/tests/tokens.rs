use lacon_rust_parser::lexer::keywords::get_keyword_token;
use lacon_rust_parser::lexer::operators::{match_operator, OperatorMatch};
use lacon_rust_parser::lexer::position::Position;
use lacon_rust_parser::lexer::token::{Token, TokenFlags, AT_LINE_START, HAS_PRECEDING_WHITESPACE};
use lacon_rust_parser::lexer::token_type::TokenType;

#[test]
fn position_starts_at_line_one_column_one() {
    assert_eq!(Position::start(), Position::new(1, 1, 0));
    let p = Position::new(3, 7, 42);
    assert_eq!((p.line, p.column, p.offset), (3, 7, 42));
}

#[test]
fn position_advances_by_characters_and_bytes() {
    let mut p = Position::start();
    p.advance('a');
    assert_eq!(p, Position::new(1, 2, 1));
    p.advance('\u{00E9}');
    assert_eq!(p, Position::new(1, 3, 3));
    p.advance('\u{20AC}');
    assert_eq!(p, Position::new(1, 4, 6));
    p.advance('\u{1F600}');
    assert_eq!(p, Position::new(1, 5, 10));
    p.advance('\n');
    assert_eq!(p, Position::new(2, 1, 11));
    p.advance('\t');
    assert_eq!(p, Position::new(2, 2, 12));
}

#[test]
fn position_in_words() {
    assert_eq!(Position::new(12, 3, 99).describe(), "line 12, col 3");
    assert_eq!(Position::start().describe(), "line 1, col 1");
}

#[test]
fn token_new_sets_fields_and_flags() {
    let t = Token::new(
        TokenType::Identifier,
        true,
        false,
        "name".to_string(),
        None,
        Position::new(2, 5, 10),
        4,
    );
    assert_eq!(t.token_type, TokenType::Identifier);
    assert_eq!(t.lexeme, "name");
    assert_eq!(t.literal, None);
    assert_eq!(t.position, Position::new(2, 5, 10));
    assert_eq!(t.length, 4);
    assert_eq!(t.flags.bits, AT_LINE_START);

    let both = Token::new(
        TokenType::Number,
        true,
        true,
        "10".to_string(),
        Some("10".to_string()),
        Position::start(),
        2,
    );
    assert_eq!(both.flags.bits, AT_LINE_START | HAS_PRECEDING_WHITESPACE);
    assert_eq!(both.literal, Some("10".to_string()));

    let blank =
        Token::new(TokenType::Plus, false, true, "+".to_string(), None, Position::start(), 1);
    assert_eq!(blank.flags.bits, HAS_PRECEDING_WHITESPACE);
    let none =
        Token::new(TokenType::Plus, false, false, "+".to_string(), None, Position::start(), 1);
    assert_eq!(none.flags, TokenFlags::empty());
}

#[test]
fn token_new_cuts_a_long_length_to_32_bits() {
    let t = Token::new(
        TokenType::Identifier,
        false,
        false,
        String::new(),
        None,
        Position::start(),
        0x1_0000_0005,
    );
    assert_eq!(t.length, 5);
}

#[test]
fn token_eof_and_error() {
    let eof = Token::eof(Position::new(4, 1, 30));
    assert_eq!(eof.token_type, TokenType::EOF);
    assert_eq!(eof.lexeme, "");
    assert_eq!(eof.literal, None);
    assert_eq!(eof.length, 0);
    assert_eq!(eof.position, Position::new(4, 1, 30));
    assert_eq!(eof.flags, TokenFlags::empty());

    let error = Token::error("bad".to_string(), Position::new(1, 2, 1));
    assert_eq!(error.token_type, TokenType::Error);
    assert_eq!(error.lexeme, "bad");
    assert_eq!(error.literal, None);
    assert_eq!(error.length, 0);
    assert_eq!(error.position, Position::new(1, 2, 1));
}

#[test]
fn token_flags_behave_as_a_set_of_bits() {
    let mut flags = TokenFlags::empty();
    assert_eq!(flags.bits, 0);
    assert!(!flags.contains(TokenFlags { bits: AT_LINE_START }));
    assert!(flags.contains(TokenFlags::empty()));
    flags.insert(TokenFlags { bits: HAS_PRECEDING_WHITESPACE });
    assert!(flags.contains(TokenFlags { bits: HAS_PRECEDING_WHITESPACE }));
    assert!(!flags.contains(TokenFlags { bits: AT_LINE_START }));
    flags.insert(TokenFlags { bits: AT_LINE_START });
    assert_eq!(flags.bits, 3);
    assert!(flags.contains(TokenFlags { bits: 3 }));
    assert_eq!(TokenFlags::from_bits_truncate(0xFF).bits, 3);
    assert_eq!(TokenFlags::from_bits_truncate(0xFE).bits, 2);
}

#[test]
fn token_in_words() {
    let t = Token::new(
        TokenType::UnitLength,
        true,
        true,
        "10px".to_string(),
        Some("10".to_string()),
        Position::new(3, 9, 40),
        4,
    );
    assert_eq!(t.describe(), "[UnitLength [SOL] [WS]] '10px' (value: 10) at line 3, col 9");
    let eof = Token::eof(Position::new(7, 1, 99));
    assert_eq!(eof.describe(), "[EOF] '' at line 7, col 1");
}

#[test]
fn kind_names_are_those_of_the_variants() {
    let kinds = [
        TokenType::BOF,
        TokenType::Identifier,
        TokenType::DollarLeftBrace,
        TokenType::UnitElectricCapacitance,
        TokenType::Ellipsis,
        TokenType::LineComment,
        TokenType::Export,
    ];
    for kind in kinds {
        assert_eq!(kind.as_str(), format!("{:?}", kind));
    }
}

#[test]
fn kind_predicates() {
    assert!(TokenType::MultilineString.is_string());
    assert!(!TokenType::Identifier.is_string());
    assert!(TokenType::UnitEnergy.is_unit());
    assert!(!TokenType::Number.is_unit());
    assert!(TokenType::RightBrace.ends_left_hand_side());
    assert!(TokenType::UnitPercent.ends_left_hand_side());
    assert!(TokenType::GraveQuotedString.ends_left_hand_side());
    assert!(!TokenType::LeftParen.ends_left_hand_side());
    assert!(!TokenType::Let.ends_left_hand_side());
}

#[test]
fn keywords_are_found_by_exact_spelling() {
    assert_eq!(get_keyword_token("let"), Some(TokenType::Let));
    assert_eq!(get_keyword_token("const"), Some(TokenType::Const));
    assert_eq!(get_keyword_token("global"), Some(TokenType::Global));
    assert_eq!(get_keyword_token("private"), Some(TokenType::Private));
    assert_eq!(get_keyword_token("else"), Some(TokenType::Else));
    assert_eq!(get_keyword_token("export"), Some(TokenType::Export));
    assert_eq!(get_keyword_token("Let"), None);
    assert_eq!(get_keyword_token("lets"), None);
    assert_eq!(get_keyword_token("le"), None);
    assert_eq!(get_keyword_token(""), None);
    assert_eq!(get_keyword_token("const-name"), None);
}

fn op(kind: TokenType, count: usize) -> OperatorMatch {
    OperatorMatch { token_type: kind, consume_count: count }
}

#[test]
fn operators_take_the_longest_match() {
    assert_eq!(match_operator('/', Some('|'), Some('\\')), op(TokenType::LineComment, 2));
    assert_eq!(match_operator('/', Some('|'), Some('x')), op(TokenType::Slash, 0));
    assert_eq!(match_operator('/', Some('*'), None), op(TokenType::BlockComment, 1));
    assert_eq!(match_operator('/', Some('='), None), op(TokenType::SlashEqual, 1));
    assert_eq!(match_operator('/', None, None), op(TokenType::Slash, 0));
    assert_eq!(match_operator('.', Some('.'), Some('.')), op(TokenType::Ellipsis, 2));
    assert_eq!(match_operator('.', Some('.'), Some('x')), op(TokenType::DotDot, 1));
    assert_eq!(match_operator('.', Some('x'), Some('.')), op(TokenType::Dot, 0));
    assert_eq!(match_operator('=', Some('='), Some('=')), op(TokenType::EqualEqual, 1));
    assert_eq!(match_operator('=', Some('>'), None), op(TokenType::FatArrow, 1));
    assert_eq!(match_operator('-', Some('>'), None), op(TokenType::Arrow, 1));
    assert_eq!(match_operator('-', Some('-'), None), op(TokenType::Minus, 0));
    assert_eq!(match_operator('$', Some('{'), None), op(TokenType::DollarLeftBrace, 1));
    assert_eq!(match_operator('$', Some('x'), None), op(TokenType::Dollar, 0));
    assert_eq!(match_operator('(', Some(')'), None), op(TokenType::LeftParen, 0));
    assert_eq!(match_operator('}', None, None), op(TokenType::RightBrace, 0));
    assert_eq!(match_operator('\\', None, None), op(TokenType::Backslash, 0));
    assert_eq!(match_operator('a', Some('b'), None), op(TokenType::Error, 0));
    assert_eq!(match_operator('\u{00A7}', None, None), op(TokenType::Error, 0));
}
