use crate::lexer::token_type::TokenType;
use vstd::prelude::*;

verus! {

/// What the table of operators finds at a character: the kind of the
/// operator, and how many characters it takes beyond the first.
#[derive(Debug, Clone, Copy, PartialEq, Eq, Structural)]
pub struct OperatorMatch {
    pub token_type: TokenType,
    pub consume_count: usize,
}

/// The operator that the two characters `c` and `next` spell together.
pub open spec fn two_char_operator(c: char, next: char) -> Option<TokenType> {
    if c == '=' && next == '=' {
        Some(TokenType::EqualEqual)
    } else if c == '!' && next == '=' {
        Some(TokenType::BangEqual)
    } else if c == '<' && next == '=' {
        Some(TokenType::LessEqual)
    } else if c == '>' && next == '=' {
        Some(TokenType::GreaterEqual)
    } else if c == '&' && next == '&' {
        Some(TokenType::AndAnd)
    } else if c == '|' && next == '|' {
        Some(TokenType::OrOr)
    } else if c == '-' && next == '>' {
        Some(TokenType::Arrow)
    } else if c == '=' && next == '>' {
        Some(TokenType::FatArrow)
    } else if c == '+' && next == '=' {
        Some(TokenType::PlusEqual)
    } else if c == '-' && next == '=' {
        Some(TokenType::MinusEqual)
    } else if c == '*' && next == '=' {
        Some(TokenType::StarEqual)
    } else if c == '/' && next == '=' {
        Some(TokenType::SlashEqual)
    } else if c == '/' && next == '*' {
        Some(TokenType::BlockComment)
    } else if c == '.' && next == '.' {
        Some(TokenType::DotDot)
    } else if c == ':' && next == ':' {
        Some(TokenType::ColonColon)
    } else if c == '$' && next == '{' {
        Some(TokenType::DollarLeftBrace)
    } else {
        None
    }
}

/// The operator or bracket that `c` spells alone.
pub open spec fn one_char_operator(c: char) -> Option<TokenType> {
    if c == '+' {
        Some(TokenType::Plus)
    } else if c == '-' {
        Some(TokenType::Minus)
    } else if c == '*' {
        Some(TokenType::Star)
    } else if c == '/' {
        Some(TokenType::Slash)
    } else if c == '%' {
        Some(TokenType::Percent)
    } else if c == '^' {
        Some(TokenType::Caret)
    } else if c == '~' {
        Some(TokenType::Tilde)
    } else if c == '=' {
        Some(TokenType::Equal)
    } else if c == '!' {
        Some(TokenType::Bang)
    } else if c == '<' {
        Some(TokenType::Less)
    } else if c == '>' {
        Some(TokenType::Greater)
    } else if c == '&' {
        Some(TokenType::Ampersand)
    } else if c == '|' {
        Some(TokenType::Pipe)
    } else if c == '.' {
        Some(TokenType::Dot)
    } else if c == ',' {
        Some(TokenType::Comma)
    } else if c == ':' {
        Some(TokenType::Colon)
    } else if c == ';' {
        Some(TokenType::Semicolon)
    } else if c == '?' {
        Some(TokenType::Question)
    } else if c == '@' {
        Some(TokenType::At)
    } else if c == '#' {
        Some(TokenType::Hash)
    } else if c == '$' {
        Some(TokenType::Dollar)
    } else if c == '\\' {
        Some(TokenType::Backslash)
    } else if c == '(' {
        Some(TokenType::LeftParen)
    } else if c == ')' {
        Some(TokenType::RightParen)
    } else if c == '[' {
        Some(TokenType::LeftBracket)
    } else if c == ']' {
        Some(TokenType::RightBracket)
    } else if c == '{' {
        Some(TokenType::LeftBrace)
    } else if c == '}' {
        Some(TokenType::RightBrace)
    } else {
        None
    }
}

/// The longest operator that begins at `c`, where `next` and `next_next` are
/// the two characters behind it, as far as there are any. Three characters
/// are tried first (`/|\` opens a line comment, `...` is the ellipsis),
/// then two, then one. Where no operator begins at `c` the kind is `Error`.
pub open spec fn operator_for(c: char, next: Option<char>, next_next: Option<char>) -> OperatorMatch {
    if c == '/' && next == Some('|') && next_next == Some('\\') {
        OperatorMatch { token_type: TokenType::LineComment, consume_count: 2 }
    } else if c == '.' && next == Some('.') && next_next == Some('.') {
        OperatorMatch { token_type: TokenType::Ellipsis, consume_count: 2 }
    } else if next is Some && two_char_operator(c, next->0) is Some {
        OperatorMatch { token_type: two_char_operator(c, next->0)->0, consume_count: 1 }
    } else if one_char_operator(c) is Some {
        OperatorMatch { token_type: one_char_operator(c)->0, consume_count: 0 }
    } else {
        OperatorMatch { token_type: TokenType::Error, consume_count: 0 }
    }
}

fn match_two(c: char, next: char) -> (r: Option<TokenType>)
    ensures
        r == two_char_operator(c, next),
{
    if c == '=' && next == '=' {
        Some(TokenType::EqualEqual)
    } else if c == '!' && next == '=' {
        Some(TokenType::BangEqual)
    } else if c == '<' && next == '=' {
        Some(TokenType::LessEqual)
    } else if c == '>' && next == '=' {
        Some(TokenType::GreaterEqual)
    } else if c == '&' && next == '&' {
        Some(TokenType::AndAnd)
    } else if c == '|' && next == '|' {
        Some(TokenType::OrOr)
    } else if c == '-' && next == '>' {
        Some(TokenType::Arrow)
    } else if c == '=' && next == '>' {
        Some(TokenType::FatArrow)
    } else if c == '+' && next == '=' {
        Some(TokenType::PlusEqual)
    } else if c == '-' && next == '=' {
        Some(TokenType::MinusEqual)
    } else if c == '*' && next == '=' {
        Some(TokenType::StarEqual)
    } else if c == '/' && next == '=' {
        Some(TokenType::SlashEqual)
    } else if c == '/' && next == '*' {
        Some(TokenType::BlockComment)
    } else if c == '.' && next == '.' {
        Some(TokenType::DotDot)
    } else if c == ':' && next == ':' {
        Some(TokenType::ColonColon)
    } else if c == '$' && next == '{' {
        Some(TokenType::DollarLeftBrace)
    } else {
        None
    }
}

fn match_one(c: char) -> (r: Option<TokenType>)
    ensures
        r == one_char_operator(c),
{
    if c == '+' {
        Some(TokenType::Plus)
    } else if c == '-' {
        Some(TokenType::Minus)
    } else if c == '*' {
        Some(TokenType::Star)
    } else if c == '/' {
        Some(TokenType::Slash)
    } else if c == '%' {
        Some(TokenType::Percent)
    } else if c == '^' {
        Some(TokenType::Caret)
    } else if c == '~' {
        Some(TokenType::Tilde)
    } else if c == '=' {
        Some(TokenType::Equal)
    } else if c == '!' {
        Some(TokenType::Bang)
    } else if c == '<' {
        Some(TokenType::Less)
    } else if c == '>' {
        Some(TokenType::Greater)
    } else if c == '&' {
        Some(TokenType::Ampersand)
    } else if c == '|' {
        Some(TokenType::Pipe)
    } else if c == '.' {
        Some(TokenType::Dot)
    } else if c == ',' {
        Some(TokenType::Comma)
    } else if c == ':' {
        Some(TokenType::Colon)
    } else if c == ';' {
        Some(TokenType::Semicolon)
    } else if c == '?' {
        Some(TokenType::Question)
    } else if c == '@' {
        Some(TokenType::At)
    } else if c == '#' {
        Some(TokenType::Hash)
    } else if c == '$' {
        Some(TokenType::Dollar)
    } else if c == '\\' {
        Some(TokenType::Backslash)
    } else if c == '(' {
        Some(TokenType::LeftParen)
    } else if c == ')' {
        Some(TokenType::RightParen)
    } else if c == '[' {
        Some(TokenType::LeftBracket)
    } else if c == ']' {
        Some(TokenType::RightBracket)
    } else if c == '{' {
        Some(TokenType::LeftBrace)
    } else if c == '}' {
        Some(TokenType::RightBrace)
    } else {
        None
    }
}

/// Looks up the longest operator that begins at `c`.
pub fn match_operator(c: char, next: Option<char>, next_next: Option<char>) -> (op: OperatorMatch)
    ensures
        op == operator_for(c, next, next_next),
{
    if c == '/' && next == Some('|') && next_next == Some('\\') {
        return OperatorMatch { token_type: TokenType::LineComment, consume_count: 2 };
    }
    if c == '.' && next == Some('.') && next_next == Some('.') {
        return OperatorMatch { token_type: TokenType::Ellipsis, consume_count: 2 };
    }
    if let Some(n) = next {
        if let Some(kind) = match_two(c, n) {
            return OperatorMatch { token_type: kind, consume_count: 1 };
        }
    }
    match match_one(c) {
        Some(kind) => OperatorMatch { token_type: kind, consume_count: 0 },
        None => OperatorMatch { token_type: TokenType::Error, consume_count: 0 },
    }
}

/// An operator never reaches past the characters it was shown, and the table
/// holds none of the kinds that frame the stream or carry a value.
pub proof fn lemma_operator_for(c: char, next: Option<char>, next_next: Option<char>)
    ensures
        operator_for(c, next, next_next).consume_count <= 2,
        operator_for(c, next, next_next).consume_count >= 1 ==> next is Some,
        operator_for(c, next, next_next).consume_count >= 2 ==> next_next is Some,
        !operator_for(c, next, next_next).token_type.is_layout(),
        !operator_for(c, next, next_next).token_type.carries_literal(),
{
}

} // verus!
