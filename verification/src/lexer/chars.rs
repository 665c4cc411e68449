use vstd::prelude::*;

verus! {

/// Whether `c` has Unicode's property Alphabetic.
pub uninterp spec fn is_alphabetic(c: char) -> bool;

/// Whether `c` is alphabetic or numeric in Unicode's sense.
pub uninterp spec fn is_alphanumeric(c: char) -> bool;

/// `char::is_alphabetic` of the standard library. Its answer is read from
/// Unicode's tables, so it is only given a name here: the same character
/// always gets the same answer.
pub assume_specification[ char::is_alphabetic ](c: char) -> (b: bool)
    ensures
        b == is_alphabetic(c),
;

/// `char::is_alphanumeric` of the standard library. Its answer is read from
/// Unicode's tables, so it is only given a name here: the same character
/// always gets the same answer.
pub assume_specification[ char::is_alphanumeric ](c: char) -> (b: bool)
    ensures
        b == is_alphanumeric(c),
;

/// One of the ten decimal digits.
pub open spec fn is_digit(c: char) -> bool {
    '0' <= c <= '9'
}

/// A character that may open an identifier: a letter or `_`.
pub open spec fn starts_identifier(c: char) -> bool {
    is_alphabetic(c) || c == '_'
}

/// A character that may go on an identifier: a letter, a digit or `_`.
pub open spec fn continues_identifier(c: char) -> bool {
    is_alphanumeric(c) || c == '_'
}

/// The signs that unit symbols use beside letters: the micro sign, the Greek
/// letter mu, the ohm's capital omega and the degree sign.
pub open spec fn is_unit_glyph(c: char) -> bool {
    c == '\u{00B5}' || c == '\u{03BC}' || c == '\u{03A9}' || c == '\u{00B0}'
}

/// A character that may open the unit behind a number.
pub open spec fn starts_unit_suffix(c: char) -> bool {
    is_alphabetic(c) || is_unit_glyph(c)
}

/// A character that may go on the unit behind a number.
pub open spec fn continues_unit_suffix(c: char) -> bool {
    is_alphanumeric(c) || c == '/' || is_unit_glyph(c)
}

/// A character with which a value may begin.
pub open spec fn starts_value(c: char) -> bool {
    is_alphanumeric(c) || c == '-' || c == '"' || c == '\'' || c == '`' || c == '{' || c == '['
        || c == '(' || c == '_' || c == '#' || c == '$' || c == '\\'
}

/// Space or tab.
pub open spec fn is_blank(c: char) -> bool {
    c == ' ' || c == '\t'
}

pub fn char_is_digit(c: char) -> (b: bool)
    ensures
        b == is_digit(c),
{
    '0' <= c && c <= '9'
}

pub fn char_starts_identifier(c: char) -> (b: bool)
    ensures
        b == starts_identifier(c),
{
    c.is_alphabetic() || c == '_'
}

pub fn char_continues_identifier(c: char) -> (b: bool)
    ensures
        b == continues_identifier(c),
{
    c.is_alphanumeric() || c == '_'
}

pub fn char_is_unit_glyph(c: char) -> (b: bool)
    ensures
        b == is_unit_glyph(c),
{
    c == '\u{00B5}' || c == '\u{03BC}' || c == '\u{03A9}' || c == '\u{00B0}'
}

pub fn char_starts_unit_suffix(c: char) -> (b: bool)
    ensures
        b == starts_unit_suffix(c),
{
    c.is_alphabetic() || char_is_unit_glyph(c)
}

pub fn char_continues_unit_suffix(c: char) -> (b: bool)
    ensures
        b == continues_unit_suffix(c),
{
    c.is_alphanumeric() || c == '/' || char_is_unit_glyph(c)
}

pub fn char_starts_value(c: char) -> (b: bool)
    ensures
        b == starts_value(c),
{
    c.is_alphanumeric() || c == '-' || c == '"' || c == '\'' || c == '`' || c == '{' || c == '['
        || c == '(' || c == '_' || c == '#' || c == '$' || c == '\\'
}

} // verus!
