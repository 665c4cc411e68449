//! The scanner as mathematics: the state of a scan and the function that
//! each step of the scanner computes on it.

use crate::lexer::chars::{
    continues_identifier, continues_unit_suffix, is_blank, is_digit, starts_identifier,
    starts_unit_suffix, starts_value,
};
use crate::lexer::error::{LexicalErrorType, LexicalErrorView};
use crate::lexer::keywords::keyword_kind;
use crate::lexer::operators::operator_for;
use crate::lexer::position::{offset_at, position_at};
use crate::lexer::suffix::unit_kind;
use crate::lexer::token::{TokenFlags, TokenView};
use crate::lexer::token_type::TokenType;
use vstd::prelude::*;

verus! {

/// The character at index `i` of `src`, if there is one.
pub open spec fn char_at(src: Seq<char>, i: int) -> Option<char> {
    if 0 <= i < src.len() {
        Some(src[i])
    } else {
        None
    }
}

/// End of the run of spaces and tabs that begins at index `i`.
pub open spec fn blanks_end(src: Seq<char>, i: int) -> int
    decreases src.len() - i,
{
    if 0 <= i < src.len() && is_blank(src[i]) {
        blanks_end(src, i + 1)
    } else {
        i
    }
}

/// Width of the blank space from index `from` up to `to`: one column for a
/// space, four for a tab.
pub open spec fn blank_width(src: Seq<char>, from: int, to: int) -> int
    decreases to - from,
{
    if to <= from {
        0
    } else if src[to - 1] == '\t' {
        blank_width(src, from, to - 1) + 4
    } else {
        blank_width(src, from, to - 1) + 1
    }
}

/// End of the run of decimal digits that begins at index `i`.
pub open spec fn digits_end(src: Seq<char>, i: int) -> int
    decreases src.len() - i,
{
    if 0 <= i < src.len() && is_digit(src[i]) {
        digits_end(src, i + 1)
    } else {
        i
    }
}

/// End of the number whose digits go on at index `i`: the rest of the whole
/// part and, where a point with a digit behind it follows, the fraction.
pub open spec fn number_end(src: Seq<char>, i: int) -> int {
    let whole = digits_end(src, i);
    if char_at(src, whole) == Some('.') && char_at(src, whole + 1) is Some && is_digit(
        char_at(src, whole + 1)->0,
    ) {
        digits_end(src, whole + 1)
    } else {
        whole
    }
}

/// End of the longest run of unit characters that begins at index `i`.
pub open spec fn suffix_end(src: Seq<char>, i: int) -> int
    decreases src.len() - i,
{
    if 0 <= i < src.len() && continues_unit_suffix(src[i]) {
        suffix_end(src, i + 1)
    } else {
        i
    }
}

/// Whether the hyphen at index `i` belongs to the name around it: it does
/// where a letter, `_` or the opener `${` follows at once.
pub open spec fn hyphen_joins(src: Seq<char>, i: int) -> bool {
    (char_at(src, i + 1) is Some && starts_identifier(char_at(src, i + 1)->0)) || (char_at(
        src,
        i + 1,
    ) == Some('$') && char_at(src, i + 2) == Some('{'))
}

/// End of the identifier that goes on at index `i`: letters, digits, `_` and
/// joining hyphens belong to it, and it stops before `${`.
pub open spec fn identifier_end(src: Seq<char>, i: int) -> int
    decreases src.len() - i,
{
    if i < 0 || i >= src.len() {
        i
    } else if src[i] == '$' && char_at(src, i + 1) == Some('{') {
        i
    } else if src[i] == '-' {
        if hyphen_joins(src, i) {
            identifier_end(src, i + 1)
        } else {
            i
        }
    } else if continues_identifier(src[i]) {
        identifier_end(src, i + 1)
    } else {
        i
    }
}

/// Index of the first line feed at or after index `i`, or the length of the
/// text where there is none.
pub open spec fn line_end(src: Seq<char>, i: int) -> int
    decreases src.len() - i,
{
    if 0 <= i < src.len() && src[i] != '\n' {
        line_end(src, i + 1)
    } else {
        i
    }
}

/// Index behind the first `*/` at or after index `i`, or the length of the
/// text where the comment is never closed.
pub open spec fn block_comment_end(src: Seq<char>, i: int) -> int
    decreases src.len() - i,
{
    if i < 0 || i >= src.len() {
        i
    } else if src[i] == '*' && char_at(src, i + 1) == Some('/') {
        i + 2
    } else {
        block_comment_end(src, i + 1)
    }
}

/// Where the content of a string stops, and why.
pub enum StringStop {
    /// At the `${` that opens an interpolated expression.
    Interpolation(int),
    /// At the closing quote.
    Closed(int),
    /// At the end of the text or, in a single-line string, at a line feed.
    Unterminated(int),
}

impl StringStop {
    /// Index at which the content stops.
    pub open spec fn index(self) -> int {
        match self {
            StringStop::Interpolation(i) => i,
            StringStop::Closed(i) => i,
            StringStop::Unterminated(i) => i,
        }
    }
}

/// Whether the closing quote of the string stands at index `i`: three double
/// quotes for a multiline string, the opening quote for any other.
pub open spec fn closes_string(src: Seq<char>, i: int, quote: char, multiline: bool) -> bool {
    if multiline {
        char_at(src, i) == Some('"') && char_at(src, i + 1) == Some('"') && char_at(src, i + 2)
            == Some('"')
    } else {
        char_at(src, i) == Some(quote)
    }
}

/// Where the content of the string that goes on at index `i` stops. A
/// backslash takes the character behind it along, so an escaped quote does
/// not close the string and an escaped `$` opens no interpolation.
pub open spec fn string_stop(src: Seq<char>, i: int, quote: char, multiline: bool) -> StringStop
    decreases src.len() - i,
{
    if i < 0 || i >= src.len() {
        StringStop::Unterminated(i)
    } else if src[i] == '\\' && char_at(src, i + 1) == Some('$') {
        string_stop(src, i + 2, quote, multiline)
    } else if src[i] == '$' && char_at(src, i + 1) == Some('{') {
        StringStop::Interpolation(i)
    } else if !multiline && src[i] == '\n' {
        StringStop::Unterminated(i)
    } else if closes_string(src, i, quote, multiline) {
        StringStop::Closed(i)
    } else if src[i] == '\\' && i + 1 < src.len() {
        string_stop(src, i + 2, quote, multiline)
    } else {
        string_stop(src, i + 1, quote, multiline)
    }
}

/// The kind of string that `quote` opens.
pub open spec fn string_kind(quote: char, multiline: bool) -> TokenType {
    if quote == '"' && multiline {
        TokenType::MultilineString
    } else if quote == '"' {
        TokenType::String
    } else if quote == '\'' {
        TokenType::SingleQuotedString
    } else if quote == '`' {
        TokenType::GraveQuotedString
    } else {
        TokenType::String
    }
}

/// Message of the diagnostic for a string without its closing quote.
pub open spec fn unclosed_string_message() -> Seq<char> {
    "Unclosed string"@
}

/// Message of the diagnostic for a line that steps back to no known width.
pub open spec fn invalid_indent_message() -> Seq<char> {
    "Inconsistent indentation"@
}

/// Message of the diagnostic for a character that no rule accepts.
pub open spec fn invalid_character_message() -> Seq<char> {
    "Unexpected character"@
}

/// The state of a scan. Positions are not part of it: the position of an
/// index follows from the source.
pub struct ScanState {
    /// The whole text.
    pub source: Seq<char>,
    /// The tokens found so far.
    pub tokens: Seq<TokenView>,
    /// The diagnostics recorded so far.
    pub errors: Seq<LexicalErrorView>,
    /// Index at which the lexeme under way begins.
    pub start: int,
    /// Index of the next character to read.
    pub current: int,
    /// Widths of the open blocks, the outermost first.
    pub indent_stack: Seq<int>,
    /// Kinds of the open brackets, the outermost first.
    pub context_stack: Seq<TokenType>,
    /// Quote and multiline mark of each string that an interpolated
    /// expression has interrupted, the outermost first.
    pub string_stack: Seq<(char, bool)>,
    /// Whether the next character is the first one of its line.
    pub is_at_line_start: bool,
}

impl ScanState {
    /// The state in which the scan of `source` begins.
    pub open spec fn initial(source: Seq<char>) -> ScanState {
        ScanState {
            source,
            tokens: Seq::empty(),
            errors: Seq::empty(),
            start: 0,
            current: 0,
            indent_stack: seq![0int],
            context_stack: Seq::empty(),
            string_stack: Seq::empty(),
            is_at_line_start: true,
        }
    }

    /// What holds of every state that a scan reaches: the two indices lie in
    /// the text, one behind the other, and the widths of the open blocks begin
    /// with 0 and grow strictly.
    pub open spec fn inv(self) -> bool {
        &&& 0 <= self.start <= self.current <= self.source.len()
        &&& self.indent_stack.len() >= 1
        &&& self.indent_stack[0] == 0
        &&& forall|i: int, j: int|
            0 <= i < j < self.indent_stack.len() ==> self.indent_stack[i] < self.indent_stack[j]
    }

    pub open spec fn at_end(self) -> bool {
        self.current >= self.source.len()
    }

    /// The character `k` places behind the next one.
    pub open spec fn peek_at(self, k: int) -> Option<char> {
        char_at(self.source, self.current + k)
    }

    /// The text of the lexeme under way.
    pub open spec fn lexeme(self) -> Seq<char> {
        self.source.subrange(self.start, self.current)
    }

    /// Length of the lexeme under way in bytes, as a token records it.
    pub open spec fn lexeme_length(self) -> u32 {
        (offset_at(self.source, self.current) - offset_at(self.source, self.start)) as u32
    }

    /// The token of kind `kind` for the lexeme under way.
    pub open spec fn token(self, kind: TokenType, literal: Option<Seq<char>>) -> TokenView {
        TokenView {
            lexeme: self.lexeme(),
            literal,
            position: position_at(self.source, self.start),
            token_type: kind,
            length: self.lexeme_length(),
            flags: TokenFlags::of(false, false),
        }
    }

    /// A token of kind `kind` without text, at the start of the lexeme under
    /// way.
    pub open spec fn raw_token(self, kind: TokenType) -> TokenView {
        TokenView {
            lexeme: Seq::empty(),
            literal: None,
            position: position_at(self.source, self.start),
            token_type: kind,
            length: 0,
            flags: TokenFlags::of(false, false),
        }
    }

    /// The token that ends the stream, at the next character to read.
    pub open spec fn eof_token(self) -> TokenView {
        TokenView {
            lexeme: Seq::empty(),
            literal: None,
            position: position_at(self.source, self.current),
            token_type: TokenType::EOF,
            length: 0,
            flags: TokenFlags::of(false, false),
        }
    }

    pub open spec fn emit(self, t: TokenView) -> ScanState {
        ScanState { tokens: self.tokens.push(t), ..self }
    }

    pub open spec fn add_token(self, kind: TokenType) -> ScanState {
        self.emit(self.token(kind, None))
    }

    pub open spec fn add_literal(self, kind: TokenType, literal: Seq<char>) -> ScanState {
        self.emit(self.token(kind, Some(literal)))
    }

    pub open spec fn add_raw(self, kind: TokenType) -> ScanState {
        self.emit(self.raw_token(kind))
    }

    /// The state with the next character to read at index `i`.
    pub open spec fn move_to(self, i: int) -> ScanState {
        ScanState { current: i, ..self }
    }

    /// The state in which a new lexeme begins at the next character.
    pub open spec fn mark_start(self) -> ScanState {
        ScanState { start: self.current, ..self }
    }

    pub open spec fn set_line_start(self, value: bool) -> ScanState {
        ScanState { is_at_line_start: value, ..self }
    }

    pub open spec fn push_indent(self, width: int) -> ScanState {
        ScanState { indent_stack: self.indent_stack.push(width), ..self }
    }

    pub open spec fn pop_indent(self) -> ScanState {
        ScanState { indent_stack: self.indent_stack.drop_last(), ..self }
    }

    pub open spec fn push_context(self, kind: TokenType) -> ScanState {
        ScanState { context_stack: self.context_stack.push(kind), ..self }
    }

    /// The state with the innermost open bracket closed, if one is open.
    pub open spec fn pop_context(self) -> ScanState {
        if self.context_stack.len() > 0 {
            ScanState { context_stack: self.context_stack.drop_last(), ..self }
        } else {
            self
        }
    }

    pub open spec fn push_string(self, quote: char, multiline: bool) -> ScanState {
        ScanState { string_stack: self.string_stack.push((quote, multiline)), ..self }
    }

    pub open spec fn pop_string(self) -> ScanState {
        ScanState { string_stack: self.string_stack.drop_last(), ..self }
    }

    /// Records a diagnostic at the start of the lexeme under way and puts an
    /// `Error` token in the lexeme's place.
    pub open spec fn report(self, error_type: LexicalErrorType, message: Seq<char>) -> ScanState {
        ScanState {
            errors: self.errors.push(
                LexicalErrorView {
                    message,
                    position: position_at(self.source, self.start),
                    error_type,
                },
            ),
            ..self
        }.add_token(TokenType::Error)
    }

    /// Whether the blank just read stands for an assignment: the token before
    /// it can end a left-hand side, and the first character behind the blank
    /// space can begin a value.
    pub open spec fn assign_whitespace(self) -> bool {
        &&& self.tokens.len() > 0
        &&& self.tokens.last().token_type.ends_left_hand_side()
        &&& blanks_end(self.source, self.current) < self.source.len()
        &&& starts_value(self.source[blanks_end(self.source, self.current)])
    }

    /// The rest of an identifier whose first character has been read.
    pub open spec fn scan_identifier(self) -> ScanState {
        let end = identifier_end(self.source, self.current);
        let kind = match keyword_kind(self.source.subrange(self.start, end)) {
            Some(kind) => kind,
            None => TokenType::Identifier,
        };
        self.move_to(end).add_token(kind)
    }

    /// The rest of a number whose first digit has been read. A `%` behind it
    /// makes a percentage; a known unit symbol behind it makes a number with
    /// that unit; behind anything else the number ends where its digits end.
    pub open spec fn scan_number(self) -> ScanState {
        let end = number_end(self.source, self.current);
        let value = self.source.subrange(self.start, end);
        let after = suffix_end(self.source, end);
        if char_at(self.source, end) == Some('%') {
            self.move_to(end + 1).add_literal(TokenType::UnitPercent, value)
        } else if char_at(self.source, end) is Some && starts_unit_suffix(self.source[end])
            && unit_kind(self.source.subrange(end, after)) is Some {
            self.move_to(after).add_literal(unit_kind(self.source.subrange(end, after))->0, value)
        } else {
            self.move_to(end).add_literal(TokenType::Number, value)
        }
    }

    /// The content of a string from the next character on, up to the closing
    /// quote, the opener of an interpolated expression, or the place where the
    /// string breaks off.
    pub open spec fn continue_string(self, quote: char, multiline: bool) -> ScanState {
        let content = self.current;
        match string_stop(self.source, self.current, quote, multiline) {
            StringStop::Interpolation(i) => self.move_to(i).add_literal(
                string_kind(quote, multiline),
                self.source.subrange(content, i),
            ).push_string(quote, multiline).mark_start().move_to(i + 2).add_token(
                TokenType::DollarLeftBrace,
            ),
            StringStop::Unterminated(i) => self.move_to(i).report(
                LexicalErrorType::UnterminatedString,
                unclosed_string_message(),
            ),
            StringStop::Closed(i) => self.move_to(
                i + if multiline {
                    3int
                } else {
                    1int
                },
            ).add_literal(string_kind(quote, multiline), self.source.subrange(content, i)),
        }
    }

    /// A string whose opening quote has been read: two more double quotes
    /// behind a double quote open a multiline string.
    pub open spec fn scan_string(self, quote: char) -> ScanState {
        if quote == '"' && self.peek_at(0) == Some('"') && self.peek_at(1) == Some('"') {
            self.move_to(self.current + 2).continue_string(quote, true)
        } else {
            self.continue_string(quote, false)
        }
    }

    /// The operator, bracket or comment that begins with `c`, which has been
    /// read.
    pub open spec fn scan_operator(self, c: char) -> ScanState {
        let op = operator_for(c, self.peek_at(0), self.peek_at(1));
        let past = self.move_to(self.current + op.consume_count);
        if op.token_type == TokenType::Error {
            self.report(LexicalErrorType::InvalidCharacter(c), invalid_character_message())
        } else if op.token_type == TokenType::LineComment {
            past.move_to(line_end(self.source, past.current))
        } else if op.token_type == TokenType::BlockComment {
            past.move_to(block_comment_end(self.source, past.current))
        } else {
            past.add_token(op.token_type)
        }
    }

    /// Closes blocks until the innermost one is no wider than `width`, with a
    /// `Dedent` for each.
    pub open spec fn dedent_to(self, width: int) -> ScanState
        decreases self.indent_stack.len(),
    {
        if self.indent_stack.len() > 1 && width < self.indent_stack.last() {
            self.pop_indent().add_raw(TokenType::Dedent).dedent_to(width)
        } else {
            self
        }
    }

    /// The layout of a line whose blank space has been measured as `width`.
    pub open spec fn apply_indent(self, width: int) -> ScanState {
        if width > self.indent_stack.last() {
            self.push_indent(width).add_raw(TokenType::Indent)
        } else if width < self.indent_stack.last() {
            let closed = self.dedent_to(width);
            if closed.indent_stack.last() != width {
                closed.report(LexicalErrorType::InvalidIndent, invalid_indent_message())
            } else {
                closed
            }
        } else {
            self
        }
    }

    /// The beginning of a line: its blank space is read and measured. A blank
    /// line and a line that begins a comment leave the blocks as they are, and
    /// so does any line while a bracket is open.
    pub open spec fn handle_indentation(self) -> ScanState {
        let end = blanks_end(self.source, self.current);
        let width = blank_width(self.source, self.current, end);
        let line = self.move_to(end);
        let next = line.peek_at(0);
        if next is None || next == Some('\n') || next == Some('\r') {
            line
        } else if next == Some('/') && (line.peek_at(1) == Some('|') || line.peek_at(1) == Some(
            '*',
        )) {
            line
        } else if line.context_stack.len() > 0 {
            line.set_line_start(false).mark_start()
        } else {
            line.apply_indent(width).set_line_start(false).mark_start()
        }
    }

    /// One lexical unit, from the next character on.
    pub open spec fn scan_token(self) -> ScanState {
        let c = self.source[self.current];
        let read = self.move_to(self.current + 1);
        if c == ' ' || c == '\t' {
            if read.assign_whitespace() {
                read.add_raw(TokenType::Whitespace).mark_start()
            } else {
                read.mark_start()
            }
        } else if c == '\r' {
            read.mark_start()
        } else if c == '\n' {
            read.add_raw(TokenType::Newline).set_line_start(true).mark_start()
        } else if c == '"' || c == '\'' || c == '`' {
            read.scan_string(c)
        } else if c == '(' {
            read.push_context(TokenType::LeftParen).scan_operator(c)
        } else if c == '[' {
            read.push_context(TokenType::LeftBracket).scan_operator(c)
        } else if c == '{' {
            read.push_context(TokenType::LeftBrace).scan_operator(c)
        } else if c == ')' || c == ']' {
            read.pop_context().scan_operator(c)
        } else if c == '}' {
            let closed = read.pop_context().scan_operator(c);
            if closed.string_stack.len() > 0 {
                closed.pop_string().mark_start().continue_string(
                    closed.string_stack.last().0,
                    closed.string_stack.last().1,
                )
            } else {
                closed
            }
        } else if c == '-' {
            if read.peek_at(0) != Some('>') && hyphen_joins(self.source, self.current) {
                read.scan_identifier()
            } else {
                read.scan_operator(c)
            }
        } else if is_digit(c) {
            read.set_line_start(false).scan_number()
        } else if starts_identifier(c) {
            read.set_line_start(false).scan_identifier()
        } else {
            read.set_line_start(false).scan_operator(c)
        }
    }

    /// One turn of the scanner: the layout of the line, where a line begins,
    /// then one lexical unit, if any text is left.
    pub open spec fn iteration(self) -> ScanState {
        let begun = self.mark_start();
        let laid_out = if begun.is_at_line_start {
            begun.handle_indentation()
        } else {
            begun
        };
        if laid_out.at_end() {
            laid_out
        } else {
            laid_out.scan_token()
        }
    }

    /// Turn after turn, until the text is read.
    pub open spec fn run(self) -> ScanState
        decreases self.source.len() - self.current,
    {
        if self.current < 0 || self.current >= self.source.len() {
            self
        } else {
            let next = self.iteration();
            if self.current < next.current <= self.source.len() && next.source == self.source {
                next.run()
            } else {
                next
            }
        }
    }

    /// Closes every block that is still open, with a `Dedent` for each.
    pub open spec fn close_blocks(self) -> ScanState
        decreases self.indent_stack.len(),
    {
        if self.indent_stack.len() > 1 {
            self.pop_indent().add_raw(TokenType::Dedent).close_blocks()
        } else {
            self
        }
    }

    /// The end of a scan: the open blocks are closed and the end-of-file
    /// token is added.
    pub open spec fn finish(self) -> ScanState {
        let closed = self.close_blocks();
        closed.emit(closed.eof_token())
    }

    /// A whole scan from the state `self`: the beginning-of-file token, the
    /// text, the end.
    pub open spec fn scan_all(self) -> ScanState {
        self.add_raw(TokenType::BOF).run().finish()
    }
}

/// The state in which the scan of `source` ends: its `tokens` and `errors`
/// are what the scanner gives for `source`.
pub open spec fn scan_source(source: Seq<char>) -> ScanState {
    ScanState::initial(source).scan_all()
}

} // verus!
