use crate::text::{chars_of, range_is};
use crate::lexer::token_type::TokenType;
use vstd::prelude::*;

verus! {

/// The reserved word that `text` spells, if it spells one.
pub open spec fn keyword_kind(text: Seq<char>) -> Option<TokenType> {
    if text == "let"@ {
        Some(TokenType::Let)
    } else if text == "const"@ {
        Some(TokenType::Const)
    } else if text == "global"@ {
        Some(TokenType::Global)
    } else if text == "local"@ {
        Some(TokenType::Local)
    } else if text == "public"@ {
        Some(TokenType::Public)
    } else if text == "private"@ {
        Some(TokenType::Private)
    } else if text == "if"@ {
        Some(TokenType::If)
    } else if text == "elif"@ {
        Some(TokenType::Elif)
    } else if text == "else"@ {
        Some(TokenType::Else)
    } else if text == "for"@ {
        Some(TokenType::For)
    } else if text == "in"@ {
        Some(TokenType::In)
    } else if text == "while"@ {
        Some(TokenType::While)
    } else if text == "return"@ {
        Some(TokenType::Return)
    } else if text == "break"@ {
        Some(TokenType::Break)
    } else if text == "continue"@ {
        Some(TokenType::Continue)
    } else if text == "fn"@ {
        Some(TokenType::Fn)
    } else if text == "true"@ {
        Some(TokenType::True)
    } else if text == "false"@ {
        Some(TokenType::False)
    } else if text == "null"@ {
        Some(TokenType::Null)
    } else if text == "and"@ {
        Some(TokenType::And)
    } else if text == "or"@ {
        Some(TokenType::Or)
    } else if text == "not"@ {
        Some(TokenType::Not)
    } else if text == "import"@ {
        Some(TokenType::Import)
    } else if text == "export"@ {
        Some(TokenType::Export)
    } else {
        None
    }
}

/// The reserved word spelled by the characters of `v` from `from` up to `to`.
pub fn keyword_in(v: &Vec<char>, from: usize, to: usize) -> (r: Option<TokenType>)
    requires
        from <= to <= v.len(),
    ensures
        r == keyword_kind(v@.subrange(from as int, to as int)),
{
    if range_is(v, from, to, "let") {
        Some(TokenType::Let)
    } else if range_is(v, from, to, "const") {
        Some(TokenType::Const)
    } else if range_is(v, from, to, "global") {
        Some(TokenType::Global)
    } else if range_is(v, from, to, "local") {
        Some(TokenType::Local)
    } else if range_is(v, from, to, "public") {
        Some(TokenType::Public)
    } else if range_is(v, from, to, "private") {
        Some(TokenType::Private)
    } else if range_is(v, from, to, "if") {
        Some(TokenType::If)
    } else if range_is(v, from, to, "elif") {
        Some(TokenType::Elif)
    } else if range_is(v, from, to, "else") {
        Some(TokenType::Else)
    } else if range_is(v, from, to, "for") {
        Some(TokenType::For)
    } else if range_is(v, from, to, "in") {
        Some(TokenType::In)
    } else if range_is(v, from, to, "while") {
        Some(TokenType::While)
    } else if range_is(v, from, to, "return") {
        Some(TokenType::Return)
    } else if range_is(v, from, to, "break") {
        Some(TokenType::Break)
    } else if range_is(v, from, to, "continue") {
        Some(TokenType::Continue)
    } else if range_is(v, from, to, "fn") {
        Some(TokenType::Fn)
    } else if range_is(v, from, to, "true") {
        Some(TokenType::True)
    } else if range_is(v, from, to, "false") {
        Some(TokenType::False)
    } else if range_is(v, from, to, "null") {
        Some(TokenType::Null)
    } else if range_is(v, from, to, "and") {
        Some(TokenType::And)
    } else if range_is(v, from, to, "or") {
        Some(TokenType::Or)
    } else if range_is(v, from, to, "not") {
        Some(TokenType::Not)
    } else if range_is(v, from, to, "import") {
        Some(TokenType::Import)
    } else if range_is(v, from, to, "export") {
        Some(TokenType::Export)
    } else {
        None
    }
}

/// The kind of the reserved word `text`, or `None` where `text` is an
/// ordinary name.
pub fn get_keyword_token(text: &str) -> (r: Option<TokenType>)
    ensures
        r == keyword_kind(text@),
{
    let v = chars_of(text);
    assert(v@.subrange(0, v@.len() as int) =~= v@);
    keyword_in(&v, 0, v.len())
}

/// No reserved word has a kind that frames the stream or carries a value,
/// nor that of a placeholder.
pub proof fn lemma_keyword_kind(text: Seq<char>)
    ensures
        keyword_kind(text) matches Some(kind) ==> !kind.is_layout() && !kind.carries_literal()
            && kind != TokenType::Error,
{
}

} // verus!
