//! The `format` function of the language: a pattern with `{}` places, and
//! the values that fill them.

use crate::lexer::chars::{char_is_digit, is_digit};
use crate::lexer::model::{char_at, digits_end};
use crate::lexer::position::{lemma_offset_monotonic, offset_at, utf8_len};
use crate::numbers::{
    decimal_text, hex_text, parse_i64, parse_int, push_decimal, push_digits, push_hex,
    IntErrorKind,
};
use crate::interpretator::patterns::{pattern_source, regex_source};
use crate::text::{chars_of, push_range, string_of, trim_bounds, trimmed};
use vstd::prelude::*;
use vstd::string::*;

verus! {

/// A value handed to `format`.
#[derive(Debug, Clone)]
pub enum FormatValue {
    /// A text.
    String(String),
    /// A whole number, written in decimal unless the place asks otherwise.
    Integer(i64),
    /// A whole number, written in hexadecimal unless the place asks otherwise.
    Hex(i64),
}

/// A value with its text as a sequence of characters.
pub enum FormatValueView {
    Text(Seq<char>),
    Integer(i64),
    Hex(i64),
}

impl View for FormatValue {
    type V = FormatValueView;

    open spec fn view(&self) -> FormatValueView {
        match self {
            FormatValue::String(text) => FormatValueView::Text(text@),
            FormatValue::Integer(n) => FormatValueView::Integer(*n),
            FormatValue::Hex(n) => FormatValueView::Hex(*n),
        }
    }
}

/// The views of a list of values, in order.
pub open spec fn value_views(values: Seq<FormatValue>) -> Seq<FormatValueView> {
    values.map_values(|v: FormatValue| v@)
}

/// A result with its texts as sequences of characters.
pub open spec fn text_result(r: Result<String, String>) -> Result<Seq<char>, Seq<char>> {
    match r {
        Ok(text) => Ok(text@),
        Err(message) => Err(message@),
    }
}

/// How a value is written where the place says nothing: a text as it is, a
/// whole number in decimal, a hexadecimal number with `0x` and capital
/// digits.
pub open spec fn rendered(value: FormatValueView) -> Seq<char> {
    match value {
        FormatValueView::Text(text) => text,
        FormatValueView::Integer(n) => decimal_text(n as int),
        FormatValueView::Hex(n) => seq!['0', 'x'] + hex_text(n as int, true),
    }
}

impl FormatValue {
    /// The value as text.
    pub fn as_str(&self) -> (s: String)
        ensures
            s@ == rendered(self@),
    {
        match self {
            FormatValue::String(s) => s.clone(),
            FormatValue::Integer(n) => {
                let mut out = String::new();
                push_decimal(&mut out, *n);
                assert(out@ =~= decimal_text(*n as int));
                out
            },
            FormatValue::Hex(n) => {
                let mut out = String::new();
                out.push('0');
                out.push('x');
                push_hex(&mut out, *n, true);
                assert(out@ =~= seq!['0', 'x'] + hex_text(*n as int, true));
                out
            },
        }
    }
}

/// A text between double quotes.
pub open spec fn is_quoted(v: Seq<char>) -> bool {
    v.len() >= 2 && v[0] == '"' && v.last() == '"'
}

/// A text that begins with `0x` or `0X`.
pub open spec fn has_hex_prefix(v: Seq<char>) -> bool {
    v.len() >= 2 && v[0] == '0' && (v[1] == 'x' || v[1] == 'X')
}

/// The message for a hexadecimal number that cannot be read.
pub open spec fn hex_error(v: Seq<char>, kind: IntErrorKind) -> Seq<char> {
    "Failed to parse hex number '"@ + v + "': "@ + kind.message()
}

/// The value that the argument `v` writes: the text between the quotes of a
/// quoted text, a hexadecimal number behind `0x`, a decimal number, or else
/// the text `v` itself.
pub open spec fn value_of(v: Seq<char>) -> Result<FormatValueView, Seq<char>> {
    if is_quoted(v) {
        Ok(FormatValueView::Text(v.subrange(1, v.len() - 1)))
    } else if has_hex_prefix(v) {
        match parse_int(v.subrange(2, v.len() as int), 16) {
            Ok(n) => Ok(FormatValueView::Hex(n as i64)),
            Err(kind) => Err(hex_error(v, kind)),
        }
    } else {
        match parse_int(v, 10) {
            Ok(n) => Ok(FormatValueView::Integer(n as i64)),
            Err(_) => Ok(FormatValueView::Text(v)),
        }
    }
}

/// A value and its view, or a message and its view.
pub open spec fn value_result(r: Result<FormatValue, String>) -> Result<
    FormatValueView,
    Seq<char>,
> {
    match r {
        Ok(value) => Ok(value@),
        Err(message) => Err(message@),
    }
}

/// Reads the argument that the characters of `v` from `from` up to `to`
/// write.
fn parse_value_in(v: &Vec<char>, from: usize, to: usize) -> (r: Result<FormatValue, String>)
    requires
        from <= to <= v.len(),
    ensures
        value_result(r) == value_of(v@.subrange(from as int, to as int)),
{
    let ghost text = v@.subrange(from as int, to as int);
    if to - from >= 2 && v[from] == '"' && v[to - 1] == '"' {
        let content = string_of(v, from + 1, to - 1);
        assert(content@ =~= text.subrange(1, text.len() - 1));
        return Ok(FormatValue::String(content));
    }
    if to - from >= 2 && v[from] == '0' && (v[from + 1] == 'x' || v[from + 1] == 'X') {
        assert(v@.subrange(from + 2, to as int) =~= text.subrange(2, text.len() as int));
        return match parse_i64(v, from + 2, to, 16) {
            Ok(n) => Ok(FormatValue::Hex(n)),
            Err(kind) => {
                let mut message = String::new();
                message.append("Failed to parse hex number '");
                push_range(&mut message, v, from, to);
                message.append("': ");
                message.append(kind.describe());
                Err(message)
            },
        };
    }
    match parse_i64(v, from, to, 10) {
        Ok(n) => Ok(FormatValue::Integer(n)),
        Err(_) => Ok(FormatValue::String(string_of(v, from, to))),
    }
}

/// Reads one argument.
pub fn parse_value(value: &str) -> (r: Result<FormatValue, String>)
    ensures
        value_result(r) == value_of(value@),
{
    let v = chars_of(value);
    assert(v@.subrange(0, v@.len() as int) =~= v@);
    parse_value_in(&v, 0, v.len())
}

/// The arguments that `text` writes from index `i` on, where `current` holds
/// the characters of the argument under way and `in_string` says whether a
/// double quote is open. A comma outside quotes ends an argument, and one
/// space behind such a comma is passed over; an argument of white space
/// alone is none.
pub open spec fn arguments_from(text: Seq<char>, i: int, current: Seq<char>, in_string: bool) -> Result<
    Seq<FormatValueView>,
    Seq<char>,
>
    decreases text.len() - i,
{
    if i < 0 || i >= text.len() {
        if trimmed(current).len() == 0 {
            Ok(Seq::empty())
        } else {
            match value_of(trimmed(current)) {
                Ok(value) => Ok(seq![value]),
                Err(message) => Err(message),
            }
        }
    } else if text[i] == '"' {
        arguments_from(text, i + 1, current.push('"'), !in_string)
    } else if text[i] == ',' && !in_string {
        let next = if char_at(text, i + 1) == Some(' ') {
            i + 2
        } else {
            i + 1
        };
        if trimmed(current).len() == 0 {
            arguments_from(text, next, current, in_string)
        } else {
            match value_of(trimmed(current)) {
                Err(message) => Err(message),
                Ok(value) => match arguments_from(text, next, Seq::empty(), in_string) {
                    Ok(rest) => Ok(seq![value] + rest),
                    Err(message) => Err(message),
                },
            }
        }
    } else {
        arguments_from(text, i + 1, current.push(text[i]), in_string)
    }
}

/// The arguments that `text` writes, or the message for the first of them
/// that cannot be read.
pub open spec fn arguments_of(text: Seq<char>) -> Result<Seq<FormatValueView>, Seq<char>> {
    arguments_from(text, 0, Seq::empty(), false)
}

/// The values `front`, then those of `rest`.
pub open spec fn values_then(
    front: Seq<FormatValueView>,
    rest: Result<Seq<FormatValueView>, Seq<char>>,
) -> Result<Seq<FormatValueView>, Seq<char>> {
    match rest {
        Ok(values) => Ok(front + values),
        Err(message) => Err(message),
    }
}

/// Values and their views, or a message and its view.
pub open spec fn values_result(r: Result<Vec<FormatValue>, String>) -> Result<
    Seq<FormatValueView>,
    Seq<char>,
> {
    match r {
        Ok(values) => Ok(value_views(values@)),
        Err(message) => Err(message@),
    }
}

/// Splits the text of the arguments at its commas and reads each argument.
pub fn parse_arguments(args_str: &str) -> (r: Result<Vec<FormatValue>, String>)
    ensures
        values_result(r) == arguments_of(args_str@),
{
    let text = chars_of(args_str);
    let mut arguments: Vec<FormatValue> = Vec::new();
    let mut current_arg: Vec<char> = Vec::new();
    let mut in_string = false;
    let mut i: usize = 0;
    assert(value_views(arguments@) =~= Seq::empty());
    assert(current_arg@ =~= Seq::empty());
    assert(Seq::<FormatValueView>::empty() + arguments_of(text@)->Ok_0 =~= arguments_of(
        text@,
    )->Ok_0);

    while i < text.len()
        invariant
            i <= text.len(),
            text@ == args_str@,
            values_then(
                value_views(arguments@),
                arguments_from(text@, i as int, current_arg@, in_string),
            ) == arguments_of(text@),
        decreases text.len() - i,
    {
        let ch = text[i];
        if ch == '"' {
            in_string = !in_string;
            current_arg.push(ch);
            i = i + 1;
        } else if ch == ',' && !in_string {
            let ghost here = i as int;
            let ghost before = arguments@;
            i = i + 1;
            if i < text.len() && text[i] == ' ' {
                i = i + 1;
            }
            let ends = trim_bounds(&current_arg);
            if ends.0 < ends.1 {
                match parse_value_in(&current_arg, ends.0, ends.1) {
                    Ok(value) => {
                        arguments.push(value);
                        current_arg = Vec::new();
                        proof {
                            assert(current_arg@ =~= Seq::empty());
                            assert(value_views(arguments@) =~= value_views(before).push(value@));
                            let rest = arguments_from(text@, i as int, Seq::empty(), in_string);
                            if rest is Ok {
                                assert(value_views(before) + (seq![value@] + rest->Ok_0)
                                    =~= value_views(before).push(value@) + rest->Ok_0);
                            }
                        }
                    },
                    Err(message) => {
                        return Err(message);
                    },
                }
            }
        } else {
            current_arg.push(ch);
            i = i + 1;
        }
    }

    let ends = trim_bounds(&current_arg);
    if ends.0 < ends.1 {
        match parse_value_in(&current_arg, ends.0, ends.1) {
            Ok(value) => {
                let ghost before = arguments@;
                arguments.push(value);
                proof {
                    assert(value_views(arguments@) =~= value_views(before) + seq![value@]);
                }
            },
            Err(message) => {
                return Err(message);
            },
        }
    } else {
        assert(value_views(arguments@) + Seq::<FormatValueView>::empty() =~= value_views(
            arguments@,
        ));
    }
    Ok(arguments)
}

/// Index of the first character of `s`, at or after index `i`, that is no
/// colon.
pub open spec fn skip_colons(s: Seq<char>, i: int) -> int
    decreases s.len() - i,
{
    if 0 <= i < s.len() && s[i] == ':' {
        skip_colons(s, i + 1)
    } else {
        i
    }
}

/// The number that the decimal digits `s` write; 0 for no digits.
pub open spec fn decimal_value(s: Seq<char>) -> int
    decreases s.len(),
{
    if s.len() == 0 {
        0
    } else {
        decimal_value(s.drop_last()) * 10 + (s.last() as int - '0' as int)
    }
}

/// The width that the digits `s` ask for: none without digits, and none
/// where the number does not fit the machine's word.
pub open spec fn width_value(s: Seq<char>) -> Option<int> {
    if s.len() == 0 || decimal_value(s) > usize::MAX {
        None
    } else {
        Some(decimal_value(s))
    }
}

/// How a value is written in a place of kind `kind`: `X` and `x` write a
/// number's 64 bits in hexadecimal, with capital or small digits; any other
/// kind, and any kind for a text, writes the value as it is.
pub open spec fn base_text(value: FormatValueView, kind: Option<char>) -> Seq<char> {
    match value {
        FormatValueView::Text(_) => rendered(value),
        FormatValueView::Integer(n) | FormatValueView::Hex(n) => if kind == Some('X') {
            hex_text(n as int, true)
        } else if kind == Some('x') {
            hex_text(n as int, false)
        } else {
            rendered(value)
        },
    }
}

/// `base` with as many `fill` before it as it lacks bytes to `width`.
pub open spec fn padded(base: Seq<char>, width: Option<int>, fill: char) -> Seq<char> {
    if width is Some && utf8_len(base) < width->0 {
        Seq::new((width->0 - utf8_len(base)) as nat, |i: int| fill) + base
    } else {
        base
    }
}

/// How `value` is written in the place `{spec}`. An empty place writes the
/// value as it is. Otherwise the place holds, behind any colons, a `0` to
/// fill with zeros instead of spaces, the digits of a width, and a character
/// for the kind.
pub open spec fn formatted(value: FormatValueView, spec: Seq<char>) -> Seq<char> {
    if spec.len() == 0 {
        rendered(value)
    } else {
        let flags = skip_colons(spec, 0);
        let zero = char_at(spec, flags) == Some('0');
        let digits = if zero {
            flags + 1
        } else {
            flags
        };
        let kind = digits_end(spec, digits);
        padded(
            base_text(value, char_at(spec, kind)),
            width_value(spec.subrange(digits, kind)),
            if zero {
                '0'
            } else {
                ' '
            },
        )
    }
}

/// The digits of a longer number write no smaller number.
proof fn lemma_decimal_value_grows(s: Seq<char>, k: int)
    requires
        0 <= k <= s.len(),
        forall|i: int| 0 <= i < s.len() ==> is_digit(s[i]),
    ensures
        0 <= decimal_value(s.take(k)) <= decimal_value(s),
    decreases s.len() - k,
{
    if k == s.len() {
        assert(s.take(k) =~= s);
        lemma_decimal_value_positive(s);
    } else {
        lemma_decimal_value_grows(s, k + 1);
        assert(s.take(k + 1).drop_last() =~= s.take(k));
        lemma_decimal_value_positive(s.take(k));
    }
}

proof fn lemma_decimal_value_positive(s: Seq<char>)
    requires
        forall|i: int| 0 <= i < s.len() ==> is_digit(s[i]),
    ensures
        0 <= decimal_value(s),
    decreases s.len(),
{
    if s.len() > 0 {
        lemma_decimal_value_positive(s.drop_last());
    }
}

/// Reads the width that the digits of `v` from `from` up to `to` write.
fn parse_width(v: &Vec<char>, from: usize, to: usize) -> (w: Option<usize>)
    requires
        from <= to <= v.len(),
        forall|i: int| from <= i < to ==> is_digit(v@[i]),
    ensures
        match w {
            Some(n) => width_value(v@.subrange(from as int, to as int)) == Some(n as int),
            None => width_value(v@.subrange(from as int, to as int)) is None,
        },
{
    let ghost digits = v@.subrange(from as int, to as int);
    if from == to {
        return None;
    }
    let mut acc: usize = 0;
    let mut i: usize = from;
    assert(digits.take(0).len() == 0);
    while i < to
        invariant
            from <= i <= to <= v.len(),
            digits == v@.subrange(from as int, to as int),
            forall|j: int| 0 <= j < digits.len() ==> is_digit(digits[j]),
            forall|j: int| from <= j < to ==> is_digit(v@[j]),
            acc == decimal_value(digits.take(i - from)),
        decreases to - i,
    {
        assert(is_digit(v@[i as int]));
        let d: usize = ((v[i] as u32) - 48) as usize;
        proof {
            assert(digits[i - from] == v@[i as int]);
            assert(digits.take(i - from + 1).drop_last() =~= digits.take(i - from));
            lemma_decimal_value_grows(digits, i - from + 1);
        }
        let next = match acc.checked_mul(10) {
            Some(m) => m.checked_add(d),
            None => None,
        };
        match next {
            Some(n) => {
                acc = n;
            },
            None => {
                return None;
            },
        }
        i = i + 1;
    }
    assert(digits.take(to - from) =~= digits);
    Some(acc)
}

/// How many bytes `v` lacks to `width`; 0 where it lacks none.
fn padding_needed(v: &Vec<char>, width: usize) -> (p: usize)
    ensures
        p == if utf8_len(v@) < width {
            width - utf8_len(v@)
        } else {
            0
        },
{
    let mut left: usize = width;
    let mut i: usize = 0;
    while i < v.len()
        invariant
            i <= v.len(),
            left <= width,
            offset_at(v@, i as int) + left == width,
        decreases v.len() - i,
    {
        let code: u32 = v[i] as u32;
        let bytes: usize = if code < 0x80 {
            1
        } else if code < 0x800 {
            2
        } else if code < 0x1_0000 {
            3
        } else {
            4
        };
        if bytes > left {
            proof {
                lemma_offset_monotonic(v@, i as int + 1, v@.len() as int);
            }
            return 0;
        }
        left = left - bytes;
        i = i + 1;
    }
    left
}

/// Writes `value` as the place `{spec}` asks.
pub fn format_with_spec(value: &FormatValue, spec: &str) -> (r: Result<String, String>)
    ensures
        text_result(r) == Ok::<Seq<char>, Seq<char>>(formatted(value@, spec@)),
{
    let spec_chars = chars_of(spec);
    if spec_chars.len() == 0 {
        return Ok(value.as_str());
    }
    let mut i: usize = 0;
    while i < spec_chars.len() && spec_chars[i] == ':'
        invariant
            i <= spec_chars.len(),
            skip_colons(spec_chars@, i as int) == skip_colons(spec_chars@, 0),
        decreases spec_chars.len() - i,
    {
        i = i + 1;
    }
    let mut fill_char = ' ';
    if i < spec_chars.len() && spec_chars[i] == '0' {
        fill_char = '0';
        i = i + 1;
    }
    let width_start = i;
    while i < spec_chars.len() && char_is_digit(spec_chars[i])
        invariant
            width_start <= i <= spec_chars.len(),
            digits_end(spec_chars@, i as int) == digits_end(spec_chars@, width_start as int),
            forall|j: int| width_start <= j < i ==> is_digit(spec_chars@[j]),
        decreases spec_chars.len() - i,
    {
        i = i + 1;
    }
    let width = parse_width(&spec_chars, width_start, i);
    let format_type: Option<char> = if i < spec_chars.len() {
        Some(spec_chars[i])
    } else {
        None
    };

    let base_str = match value {
        FormatValue::String(_) => value.as_str(),
        FormatValue::Integer(n) | FormatValue::Hex(n) => {
            if format_type == Some('X') {
                let mut out = String::new();
                push_hex(&mut out, *n, true);
                assert(out@ =~= hex_text(*n as int, true));
                out
            } else if format_type == Some('x') {
                let mut out = String::new();
                push_hex(&mut out, *n, false);
                assert(out@ =~= hex_text(*n as int, false));
                out
            } else {
                value.as_str()
            }
        },
    };
    assert(base_str@ == base_text(value@, format_type));

    if let Some(w) = width {
        let base_chars = chars_of(base_str.as_str());
        let padding = padding_needed(&base_chars, w);
        if padding > 0 {
            let mut out = String::new();
            let mut done: usize = 0;
            while done < padding
                invariant
                    done <= padding,
                    out@ == Seq::new(done as nat, |i: int| fill_char),
                decreases padding - done,
            {
                out.push(fill_char);
                done = done + 1;
                assert(out@ =~= Seq::new(done as nat, |i: int| fill_char));
            }
            out.append(base_str.as_str());
            return Ok(out);
        }
    }
    Ok(base_str)
}

/// Index of the first `}` of `pattern` at or after index `i`; the length of
/// the pattern where there is none.
pub open spec fn closing_brace(pattern: Seq<char>, i: int) -> int
    decreases pattern.len() - i,
{
    if 0 <= i < pattern.len() && pattern[i] != '}' {
        closing_brace(pattern, i + 1)
    } else {
        i
    }
}

/// The message for a pattern with more places than there are values.
pub open spec fn not_enough_arguments(needed: int, given: int) -> Seq<char> {
    "Not enough arguments: pattern requires at least "@ + decimal_text(needed) + ", but only "@
        + decimal_text(given) + " provided"@
}

/// `front`, then the text of `rest`.
pub open spec fn text_then(front: Seq<char>, rest: Result<Seq<char>, Seq<char>>) -> Result<
    Seq<char>,
    Seq<char>,
> {
    match rest {
        Ok(text) => Ok(front + text),
        Err(message) => Err(message),
    }
}

/// The closing brace of a place lies behind its opening brace.
pub proof fn lemma_closing_brace(pattern: Seq<char>, i: int)
    requires
        0 <= i <= pattern.len(),
    ensures
        i <= closing_brace(pattern, i) <= pattern.len(),
    decreases pattern.len() - i,
{
    if i < pattern.len() && pattern[i] != '}' {
        lemma_closing_brace(pattern, i + 1);
    }
}

/// The text that `pattern` gives from index `i` on, where the next place
/// takes the value at index `k` of `values`. Each place `{...}` is filled
/// with the next value, written as the place asks; a `{` that is never closed
/// stands for itself, with all that follows it; every other character stands
/// for itself.
pub open spec fn expanded_from(
    pattern: Seq<char>,
    values: Seq<FormatValueView>,
    i: int,
    k: int,
) -> Result<Seq<char>, Seq<char>>
    decreases pattern.len() - i,
    via expanded_from_decreases
{
    if i < 0 || i >= pattern.len() {
        Ok(Seq::empty())
    } else if pattern[i] == '{' {
        let close = closing_brace(pattern, i + 1);
        if close >= pattern.len() {
            Ok(pattern.subrange(i, pattern.len() as int))
        } else if k < 0 || k >= values.len() {
            Err(not_enough_arguments(k + 1, values.len() as int))
        } else {
            text_then(
                formatted(values[k], pattern.subrange(i + 1, close)),
                expanded_from(pattern, values, close + 1, k + 1),
            )
        }
    } else {
        text_then(seq![pattern[i]], expanded_from(pattern, values, i + 1, k))
    }
}

#[via_fn]
proof fn expanded_from_decreases(
    pattern: Seq<char>,
    values: Seq<FormatValueView>,
    i: int,
    k: int,
) {
    if 0 <= i < pattern.len() {
        lemma_closing_brace(pattern, i + 1);
    }
}

/// The text that `pattern` gives with `values`, or the message for a place
/// without value.
pub open spec fn expanded(pattern: Seq<char>, values: Seq<FormatValueView>) -> Result<
    Seq<char>,
    Seq<char>,
> {
    expanded_from(pattern, values, 0, 0)
}

/// Fills the places of `pattern` with `args`, in order.
pub fn format_function(pattern: &str, args: &[FormatValue]) -> (r: Result<String, String>)
    ensures
        text_result(r) == expanded(pattern@, value_views(args@)),
{
    let chars = chars_of(pattern);
    let ghost values = value_views(args@);
    let mut result = String::new();
    let mut arg_index: usize = 0;
    let mut i: usize = 0;
    proof {
        let whole = expanded(chars@, values);
        if whole is Ok {
            assert(Seq::<char>::empty() + whole->Ok_0 =~= whole->Ok_0);
        }
    }

    while i < chars.len()
        invariant
            i <= chars.len(),
            arg_index <= args.len(),
            chars@ == pattern@,
            values == value_views(args@),
            text_then(result@, expanded_from(chars@, values, i as int, arg_index as int))
                == expanded(chars@, values),
        decreases chars.len() - i,
    {
        let ch = chars[i];
        let ghost before = result@;
        if ch == '{' {
            let mut close: usize = i + 1;
            while close < chars.len() && chars[close] != '}'
                invariant
                    i < close <= chars.len(),
                    closing_brace(chars@, close as int) == closing_brace(chars@, i + 1),
                decreases chars.len() - close,
            {
                close = close + 1;
            }
            if close >= chars.len() {
                push_range(&mut result, &chars, i, chars.len());
                i = chars.len();
                proof {
                    assert(result@ + Seq::<char>::empty() =~= result@);
                }
            } else {
                if arg_index >= args.len() {
                    let mut message = String::new();
                    message.append("Not enough arguments: pattern requires at least ");
                    push_digits(&mut message, arg_index as u128 + 1, 10, false);
                    message.append(", but only ");
                    push_digits(&mut message, args.len() as u128, 10, false);
                    message.append(" provided");
                    return Err(message);
                }
                let format_spec = string_of(&chars, i + 1, close);
                let formatted_text = match format_with_spec(&args[arg_index], format_spec.as_str()) {
                    Ok(text) => text,
                    Err(message) => {
                        return Err(message);
                    },
                };
                result.append(formatted_text.as_str());
                proof {
                    let rest = expanded_from(chars@, values, close + 1, arg_index + 1);
                    if rest is Ok {
                        assert(before + (formatted_text@ + rest->Ok_0) =~= (before
                            + formatted_text@) + rest->Ok_0);
                    }
                }
                arg_index = arg_index + 1;
                i = close + 1;
            }
        } else {
            result.push(ch);
            proof {
                let rest = expanded_from(chars@, values, i + 1, arg_index as int);
                if rest is Ok {
                    assert(before + (seq![ch] + rest->Ok_0) =~= before.push(ch) + rest->Ok_0);
                }
            }
            i = i + 1;
        }
    }
    proof {
        assert(result@ + Seq::<char>::empty() =~= result@);
    }
    Ok(result)
}

/// The error of the `regex` crate: a pattern that is no regular expression,
/// or one that is too large.
#[verifier::external_type_specification]
#[verifier::external_body]
pub struct ExRegexError(regex::Error);

/// What the regular expression `pattern` finds in `input`: `None` where
/// `pattern` is no regular expression; `Some(None)` where it matches nowhere;
/// else the groups of its leftmost match, the whole match first, with `None`
/// for a group that took no part.
pub uninterp spec fn regex_captures(pattern: Seq<char>, input: Seq<char>) -> Option<
    Option<Seq<Option<Seq<char>>>>,
>;

/// The groups of a match with their texts as sequences of characters.
pub open spec fn groups_view(found: Option<Vec<Option<String>>>) -> Option<Seq<Option<Seq<char>>>> {
    match found {
        None => None,
        Some(groups) => Some(
            groups@.map_values(
                |group: Option<String>|
                    match group {
                        Some(text) => Some(text@),
                        None => None,
                    },
            ),
        ),
    }
}

/// `regex::Regex::new` on `pattern`, then `regex::Regex::captures` of the
/// expression it built on `input`. Both depend on their arguments alone, and
/// what a regular expression matches takes a book to say, so the outcome is
/// only given a name: the error of `new` is the name's `None`, and the groups
/// that `captures` found are copied out as texts.
#[verifier::external_body]
fn captures(pattern: &str, input: &str) -> (r: Result<Option<Vec<Option<String>>>, regex::Error>)
    ensures
        match r {
            Ok(found) => regex_captures(pattern@, input@) == Some(groups_view(found)),
            Err(_) => regex_captures(pattern@, input@) is None,
        },
{
    let expression = regex::Regex::new(pattern)?;
    Ok(
        expression.captures(input).map(
            |found| found.iter().map(|group| group.map(|m| m.as_str().to_string())).collect(),
        ),
    )
}

/// The message for an input that is no call of `format`.
pub open spec fn invalid_call() -> Seq<char> {
    "Invalid format call"@
}

/// What `format` gives for the pattern `pattern` and the arguments that
/// `args` writes.
pub open spec fn applied(pattern: Seq<char>, args: Seq<char>) -> Result<Seq<char>, Seq<char>> {
    match arguments_of(args) {
        Ok(values) => expanded(pattern, values),
        Err(message) => Err(message),
    }
}

/// What a call of `format` gives, from what the regular expression of such a
/// call found in the input: the first group is the pattern, the second the
/// text of the arguments.
pub open spec fn format_call_result(found: Option<Option<Seq<Option<Seq<char>>>>>) -> Result<
    Seq<char>,
    Seq<char>,
> {
    match found {
        Some(Some(groups)) => if groups.len() >= 3 && groups[1] is Some && groups[2] is Some {
            applied(groups[1]->0, groups[2]->0)
        } else {
            Err(invalid_call())
        },
        _ => Err(invalid_call()),
    }
}

/// Reads the arguments that `args_str` writes and fills the places of
/// `pattern` with them.
pub fn apply_format(pattern: &str, args_str: &str) -> (r: Result<String, String>)
    ensures
        text_result(r) == applied(pattern@, args_str@),
{
    match parse_arguments(args_str) {
        Ok(args) => format_function(pattern, args.as_slice()),
        Err(message) => Err(message),
    }
}

/// What a call of `format` gives, from the groups that the regular
/// expression of such a call found in the input.
pub fn format_found(found: Option<Vec<Option<String>>>) -> (r: Result<String, String>)
    ensures
        text_result(r) == format_call_result(Some(groups_view(found))),
{
    match found {
        Some(groups) => {
            if groups.len() >= 3 {
                match (&groups[1], &groups[2]) {
                    (Some(pattern), Some(args_str)) => {
                        return apply_format(pattern.as_str(), args_str.as_str());
                    },
                    _ => {},
                }
            }
            Err("Invalid format call".to_owned())
        },
        None => Err("Invalid format call".to_owned()),
    }
}

/// Evaluates `input` as a call `@format("pattern", arguments)`.
pub fn process_format_call(input: &str) -> (r: Result<String, String>)
    ensures
        text_result(r) == format_call_result(
            regex_captures(pattern_source("format"@)->0, input@),
        ),
{
    let pattern = match regex_source("format") {
        Some(pattern) => pattern,
        None => {
            return Err("Invalid format call".to_owned());
        },
    };
    match captures(pattern, input) {
        Ok(found) => format_found(found),
        Err(_) => Err("Invalid format call".to_owned()),
    }
}

} // verus!
