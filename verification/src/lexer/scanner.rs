use crate::lexer::chars::{
    char_continues_identifier, char_continues_unit_suffix, char_is_digit, char_starts_identifier,
    char_starts_unit_suffix, char_starts_value,
};
use crate::lexer::error::{error_views, lemma_error_views_push, LexicalError, LexicalErrorType};
use crate::lexer::keywords::keyword_in;
use crate::lexer::laws::{finished, lemma_scan_all};
use crate::lexer::model::{
    blank_width, blanks_end, block_comment_end, closes_string, digits_end, hyphen_joins,
    identifier_end, line_end, number_end, scan_source, string_kind, string_stop, suffix_end,
    ScanState, StringStop,
};
use crate::lexer::operators::{lemma_operator_for, match_operator};
use crate::lexer::position::{
    countable, lemma_offset_monotonic, lemma_position_bounds, lemma_position_step, offset_at,
    position_at, Position,
};
use crate::lexer::suffix::unit_kind_in;
use crate::lexer::token::{lemma_token_views_push, token_views, Token};
use crate::lexer::token_type::TokenType;
use crate::text::{chars_of, string_of};
use vstd::prelude::*;

verus! {

/// The scanner: it reads a whole text and gives its tokens, with a list of
/// diagnostics for what it could not read.
pub struct Scanner {
    source: Vec<char>,
    tokens: Vec<Token>,
    start: usize,
    current: usize,
    position: Position,
    start_position: Position,
    indent_stack: Vec<usize>,
    context_stack: Vec<TokenType>,
    string_stack: Vec<(char, bool)>,
    is_at_line_start: bool,
    /// The diagnostics recorded so far.
    pub errors: Vec<LexicalError>,
}

impl View for Scanner {
    type V = ScanState;

    closed spec fn view(&self) -> ScanState {
        ScanState {
            source: self.source@,
            tokens: token_views(self.tokens@),
            errors: error_views(self.errors@),
            start: self.start as int,
            current: self.current as int,
            indent_stack: self.indent_stack@.map_values(|w: usize| w as int),
            context_stack: self.context_stack@,
            string_stack: self.string_stack@,
            is_at_line_start: self.is_at_line_start,
        }
    }
}

impl Scanner {
    /// Whether the scanner is in order: its state is one that a scan can
    /// reach, the text is short enough for every position in it to be
    /// counted, and the two positions it keeps are those of its two indices.
    pub closed spec fn wf(&self) -> bool {
        &&& self@.inv()
        &&& countable(self.source@)
        &&& self.position == position_at(self.source@, self.current as int)
        &&& self.start_position == position_at(self.source@, self.start as int)
    }

    /// A scanner at the beginning of `source`, which must be countable.
    pub fn new(source: String) -> (s: Self)
        requires
            countable(source@),
        ensures
            s.wf(),
            s@ == ScanState::initial(source@),
    {
        let start_pos = Position::start();
        let mut indent_stack: Vec<usize> = Vec::new();
        indent_stack.push(0);
        let s = Self {
            source: chars_of(source.as_str()),
            tokens: Vec::new(),
            start: 0,
            current: 0,
            position: start_pos,
            start_position: start_pos,
            indent_stack,
            context_stack: Vec::new(),
            string_stack: Vec::new(),
            is_at_line_start: true,
            errors: Vec::new(),
        };
        assert(s@.tokens =~= Seq::empty());
        assert(s@.errors =~= Seq::empty());
        assert(s@.indent_stack =~= seq![0int]);
        assert(s@.context_stack =~= Seq::empty());
        assert(s@.string_stack =~= Seq::empty());
        s
    }

    fn is_at_end(&self) -> (b: bool)
        ensures
            b == self@.at_end(),
    {
        self.current >= self.source.len()
    }

    fn peek_at(&self, distance: usize) -> (c: Option<char>)
        requires
            self.wf(),
            distance <= 2,
        ensures
            c == self@.peek_at(distance as int),
    {
        if self.current + distance < self.source.len() {
            Some(self.source[self.current + distance])
        } else {
            None
        }
    }

    fn peek(&self) -> (c: Option<char>)
        requires
            self.wf(),
        ensures
            c == self@.peek_at(0),
    {
        self.peek_at(0)
    }

    fn peek_next(&self) -> (c: Option<char>)
        requires
            self.wf(),
        ensures
            c == self@.peek_at(1),
    {
        self.peek_at(1)
    }

    /// Reads the next character.
    fn advance(&mut self) -> (c: char)
        requires
            old(self).wf(),
            !old(self)@.at_end(),
        ensures
            final(self).wf(),
            final(self)@ == old(self)@.move_to(old(self)@.current + 1),
            c == old(self)@.source[old(self)@.current],
    {
        proof {
            lemma_position_bounds(self.source@, self.current as int);
            lemma_position_step(self.source@, self.current as int);
        }
        let c = self.source[self.current];
        self.current = self.current + 1;
        self.position.advance(c);
        c
    }

    /// Reads the next character if it is `expected`.
    fn match_char(&mut self, expected: char) -> (b: bool)
        requires
            old(self).wf(),
        ensures
            final(self).wf(),
            b == (old(self)@.peek_at(0) == Some(expected)),
            final(self)@ == if b {
                old(self)@.move_to(old(self)@.current + 1)
            } else {
                old(self)@
            },
    {
        if self.peek() == Some(expected) {
            self.advance();
            true
        } else {
            false
        }
    }

    /// Reads `count` characters.
    fn consume(&mut self, count: usize)
        requires
            old(self).wf(),
            old(self)@.current + count <= old(self)@.source.len(),
        ensures
            final(self).wf(),
            final(self)@ == old(self)@.move_to(old(self)@.current + count),
    {
        let ghost begin = self@;
        let mut done: usize = 0;
        while done < count
            invariant
                self.wf(),
                done <= count,
                begin.current + count <= begin.source.len(),
                self@ == begin.move_to(begin.current + done),
            decreases count - done,
        {
            self.advance();
            done = done + 1;
        }
    }

    /// Goes back to the index `index`, whose position is `position`.
    fn rewind(&mut self, index: usize, position: Position)
        requires
            old(self).wf(),
            old(self)@.start <= index <= old(self)@.source.len(),
            position == position_at(old(self)@.source, index as int),
        ensures
            final(self).wf(),
            final(self)@ == old(self)@.move_to(index as int),
    {
        self.current = index;
        self.position = position;
    }

    /// Begins a new lexeme at the next character.
    fn mark_start(&mut self)
        requires
            old(self).wf(),
        ensures
            final(self).wf(),
            final(self)@ == old(self)@.mark_start(),
    {
        self.start = self.current;
        self.start_position = self.position;
    }

    fn get_slice(&self, start: usize, end: usize) -> (s: String)
        requires
            start <= end <= self@.source.len(),
        ensures
            s@ == self@.source.subrange(start as int, end as int),
    {
        string_of(&self.source, start, end)
    }

    fn get_lexeme(&self) -> (s: String)
        requires
            self.wf(),
        ensures
            s@ == self@.lexeme(),
    {
        string_of(&self.source, self.start, self.current)
    }

    /// Length in bytes of the lexeme under way.
    fn lexeme_bytes(&self) -> (n: usize)
        requires
            self.wf(),
        ensures
            n == offset_at(self@.source, self@.current) - offset_at(self@.source, self@.start),
    {
        proof {
            lemma_offset_monotonic(self.source@, self.start as int, self.current as int);
            lemma_position_bounds(self.source@, self.start as int);
            lemma_position_bounds(self.source@, self.current as int);
        }
        self.position.offset - self.start_position.offset
    }

    fn push_token(&mut self, token: Token)
        requires
            old(self).wf(),
        ensures
            final(self).wf(),
            final(self)@ == old(self)@.emit(token@),
    {
        proof {
            lemma_token_views_push(self.tokens@, token);
        }
        self.tokens.push(token);
    }

    fn add_token_raw(&mut self, t_type: TokenType)
        requires
            old(self).wf(),
        ensures
            final(self).wf(),
            final(self)@ == old(self)@.add_raw(t_type),
    {
        let token = Token::new(t_type, false, false, String::new(), None, self.start_position, 0);
        self.push_token(token);
    }

    fn add_token(&mut self, t_type: TokenType)
        requires
            old(self).wf(),
        ensures
            final(self).wf(),
            final(self)@ == old(self)@.add_token(t_type),
    {
        let text = self.get_lexeme();
        let len = self.lexeme_bytes();
        let token = Token::new(t_type, false, false, text, None, self.start_position, len);
        self.push_token(token);
    }

    fn add_token_with_literal(&mut self, t_type: TokenType, literal: String)
        requires
            old(self).wf(),
        ensures
            final(self).wf(),
            final(self)@ == old(self)@.add_literal(t_type, literal@),
    {
        let text = self.get_lexeme();
        let len = self.lexeme_bytes();
        let token = Token::new(
            t_type,
            false,
            false,
            text,
            Some(literal),
            self.start_position,
            len,
        );
        self.push_token(token);
    }

    fn report_error(&mut self, error_type: LexicalErrorType, message: &str)
        requires
            old(self).wf(),
        ensures
            final(self).wf(),
            final(self)@ == old(self)@.report(error_type, message@),
    {
        let error = LexicalError {
            message: message.to_owned(),
            position: self.start_position,
            error_type,
        };
        proof {
            lemma_error_views_push(self.errors@, error);
        }
        self.errors.push(error);
        self.add_token(TokenType::Error);
    }
}

impl Scanner {
    /// Reads the whole text and returns its tokens: a beginning-of-file
    /// token, the tokens of the text, a `Dedent` for each block still open at
    /// the end, and the end-of-file token. The diagnostics go to `errors`.
    ///
    /// On a scanner that has not scanned yet the scan is finished in the
    /// sense of the laws: the stream is framed, balanced, paired with the
    /// diagnostics, made of well-formed tokens, and ordered.
    pub fn scan_tokens(&mut self) -> (tokens: &Vec<Token>)
        requires
            old(self).wf(),
        ensures
            final(self).wf(),
            final(self)@ == old(self)@.scan_all(),
            final(self)@.source == old(self)@.source,
            final(self)@.current == old(self)@.source.len(),
            token_views(tokens@) == final(self)@.tokens,
            old(self)@.tokens.len() == 0 && old(self)@.errors.len() == 0 && old(
                self,
            )@.indent_stack.len() == 1 ==> finished(final(self)@),
    {
        proof {
            if self@.tokens.len() == 0 && self@.errors.len() == 0 && self@.indent_stack.len()
                == 1 {
                lemma_scan_all(self@);
            }
        }
        self.add_token_raw(TokenType::BOF);
        let ghost begun = self@;

        while !self.is_at_end()
            invariant
                self.wf(),
                self@.source == begun.source,
                self@.run() == begun.run(),
            decreases self@.source.len() - self@.current,
        {
            self.scan_iteration();
        }

        while self.indent_stack.len() > 1
            invariant
                self.wf(),
                self@.current == begun.run().current,
                self@.source == begun.source,
                self@.close_blocks() == begun.run().close_blocks(),
            decreases self.indent_stack.len(),
        {
            self.pop_indent();
            self.add_token_raw(TokenType::Dedent);
        }

        let eof = Token::eof(self.position);
        self.push_token(eof);
        &self.tokens
    }

    /// One turn: the layout of the line, where a line begins, then one
    /// lexical unit, if any text is left.
    fn scan_iteration(&mut self)
        requires
            old(self).wf(),
            !old(self)@.at_end(),
        ensures
            final(self).wf(),
            final(self)@.source == old(self)@.source,
            final(self)@ == old(self)@.iteration(),
            final(self)@.current > old(self)@.current,
            final(self)@.run() == old(self)@.run(),
    {
        self.mark_start();

        if self.is_at_line_start {
            self.handle_indentation();
        }
        if !self.is_at_end() {
            self.scan_token();
        }
        assert(self@ == old(self)@.iteration());
        assert(old(self)@.run() == old(self)@.iteration().run());
    }

    /// The diagnostics recorded so far.
    pub fn diagnostics(&self) -> (errors: &Vec<LexicalError>)
        ensures
            error_views(errors@) == self@.errors,
    {
        &self.errors
    }

    /// Number of strings that an interpolated expression has interrupted and
    /// that have not been taken up again.
    pub fn interpolation_depth(&self) -> (n: usize)
        ensures
            n == self@.string_stack.len(),
    {
        self.string_stack.len()
    }

    fn last_indent(&self) -> (w: usize)
        requires
            self.wf(),
        ensures
            w == self@.indent_stack.last(),
    {
        self.indent_stack[self.indent_stack.len() - 1]
    }

    fn push_indent(&mut self, width: usize)
        requires
            old(self).wf(),
            width > old(self)@.indent_stack.last(),
        ensures
            final(self).wf(),
            final(self)@.source == old(self)@.source,
            final(self)@ == old(self)@.push_indent(width as int),
    {
        self.indent_stack.push(width);
        assert(self@.indent_stack =~= old(self)@.indent_stack.push(width as int));
    }

    fn pop_indent(&mut self)
        requires
            old(self).wf(),
            old(self)@.indent_stack.len() > 1,
        ensures
            final(self).wf(),
            final(self)@.source == old(self)@.source,
            final(self)@ == old(self)@.pop_indent(),
    {
        self.indent_stack.pop();
        assert(self@.indent_stack =~= old(self)@.indent_stack.drop_last());
    }

    /// One lexical unit.
    fn scan_token(&mut self)
        requires
            old(self).wf(),
            !old(self)@.at_end(),
        ensures
            final(self).wf(),
            final(self)@.source == old(self)@.source,
            final(self)@ == old(self)@.scan_token(),
            final(self)@.current > old(self)@.current,
    {
        let c = self.advance();

        match c {
            ' ' | '\t' | '\r' => {
                if c != '\r' && self.is_assign_whitespace() {
                    self.add_token_raw(TokenType::Whitespace);
                }
                self.mark_start();
            },
            '\n' => {
                self.add_token_raw(TokenType::Newline);
                self.is_at_line_start = true;
                self.mark_start();
            },
            '"' | '\'' | '`' => {
                self.scan_string(c);
            },
            '(' | '[' | '{' => {
                let t_type = match c {
                    '(' => TokenType::LeftParen,
                    '[' => TokenType::LeftBracket,
                    _ => TokenType::LeftBrace,
                };
                self.context_stack.push(t_type);
                self.handle_operator(c);
            },
            ')' | ']' | '}' => {
                if self.context_stack.len() > 0 {
                    self.context_stack.pop();
                }
                self.handle_operator(c);

                if c == '}' {
                    if let Some((quote, is_multiline)) = self.string_stack.pop() {
                        self.mark_start();
                        self.continue_string_scan(quote, is_multiline);
                    }
                }
            },
            '-' => {
                if self.peek() != Some('>') && self.hyphen_joins(0) {
                    self.scan_identifier();
                } else {
                    self.handle_operator(c);
                }
            },
            _ => {
                self.is_at_line_start = false;

                if char_is_digit(c) {
                    self.scan_number();
                } else if char_starts_identifier(c) {
                    self.scan_identifier();
                } else {
                    self.handle_operator(c);
                }
            },
        }
    }

    /// Whether a hyphen that stands just before the character `ahead` places
    /// behind the next one belongs to the name around it.
    fn hyphen_joins(&self, ahead: usize) -> (b: bool)
        requires
            self.wf(),
            ahead <= 1,
            self@.current + ahead >= 1,
        ensures
            b == hyphen_joins(self@.source, self@.current + ahead - 1),
    {
        let next = self.peek_at(ahead);
        let next_next = self.peek_at(ahead + 1);
        let begins_name = match next {
            Some(n) => char_starts_identifier(n),
            None => false,
        };
        begins_name || (next == Some('$') && next_next == Some('{'))
    }

    fn scan_identifier(&mut self)
        requires
            old(self).wf(),
        ensures
            final(self).wf(),
            final(self)@.source == old(self)@.source,
            final(self)@ == old(self)@.scan_identifier(),
            final(self)@.current >= old(self)@.current,
    {
        let ghost begin = self@;
        loop
            invariant
                self.wf(),
                self@ == begin.move_to(self@.current),
                begin.current <= self@.current,
                identifier_end(begin.source, self@.current) == identifier_end(
                    begin.source,
                    begin.current,
                ),
            ensures
                identifier_end(begin.source, self@.current) == self@.current,
            decreases self@.source.len() - self@.current,
        {
            match self.peek() {
                None => {
                    break ;
                },
                Some(c) => {
                    if c == '$' && self.peek_next() == Some('{') {
                        break ;
                    }
                    if c == '-' {
                        if self.hyphen_joins(1) {
                            self.advance();
                            continue ;
                        } else {
                            break ;
                        }
                    }
                    if char_continues_identifier(c) {
                        self.advance();
                    } else {
                        break ;
                    }
                },
            }
        }

        let t_type = match keyword_in(&self.source, self.start, self.current) {
            Some(kind) => kind,
            None => TokenType::Identifier,
        };
        self.add_token(t_type);
    }

    /// Reads the run of decimal digits at the next character.
    fn skip_digits(&mut self)
        requires
            old(self).wf(),
        ensures
            final(self).wf(),
            final(self)@.source == old(self)@.source,
            final(self)@ == old(self)@.move_to(
                digits_end(old(self)@.source, old(self)@.current),
            ),
            final(self)@.current >= old(self)@.current,
    {
        let ghost begin = self@;
        loop
            invariant
                self.wf(),
                self@ == begin.move_to(self@.current),
                begin.current <= self@.current,
                digits_end(begin.source, self@.current) == digits_end(begin.source, begin.current),
            ensures
                digits_end(begin.source, self@.current) == self@.current,
            decreases self@.source.len() - self@.current,
        {
            match self.peek() {
                Some(c) => {
                    if char_is_digit(c) {
                        self.advance();
                    } else {
                        break ;
                    }
                },
                None => {
                    break ;
                },
            }
        }
    }

    /// Reads the longest run of unit characters at the next character.
    fn skip_suffix(&mut self)
        requires
            old(self).wf(),
        ensures
            final(self).wf(),
            final(self)@.source == old(self)@.source,
            final(self)@ == old(self)@.move_to(
                suffix_end(old(self)@.source, old(self)@.current),
            ),
            final(self)@.current >= old(self)@.current,
    {
        let ghost begin = self@;
        loop
            invariant
                self.wf(),
                self@ == begin.move_to(self@.current),
                begin.current <= self@.current,
                suffix_end(begin.source, self@.current) == suffix_end(begin.source, begin.current),
            ensures
                suffix_end(begin.source, self@.current) == self@.current,
            decreases self@.source.len() - self@.current,
        {
            match self.peek() {
                Some(nc) => {
                    if char_continues_unit_suffix(nc) {
                        self.advance();
                    } else {
                        break ;
                    }
                },
                None => {
                    break ;
                },
            }
        }
    }

    fn scan_number(&mut self)
        requires
            old(self).wf(),
        ensures
            final(self).wf(),
            final(self)@.source == old(self)@.source,
            final(self)@ == old(self)@.scan_number(),
            final(self)@.current >= old(self)@.current,
    {
        let ghost begin = self@;
        self.skip_digits();

        let fraction_follows = self.peek() == Some('.') && match self.peek_next() {
            Some(d) => char_is_digit(d),
            None => false,
        };
        if fraction_follows {
            self.advance();
            self.skip_digits();
        }
        assert(self@ == begin.move_to(number_end(begin.source, begin.current)));

        let value_literal = self.get_slice(self.start, self.current);

        if let Some(c) = self.peek() {
            if c == '%' {
                self.advance();
                self.add_token_with_literal(TokenType::UnitPercent, value_literal);
                return ;
            }
            if char_starts_unit_suffix(c) {
                let suffix_start = self.current;
                let pos_before_suffix = self.position;

                self.skip_suffix();

                match unit_kind_in(&self.source, suffix_start, self.current) {
                    Some(t_type) => {
                        self.add_token_with_literal(t_type, value_literal);
                        return ;
                    },
                    None => {
                        self.rewind(suffix_start, pos_before_suffix);
                    },
                }
            }
        }
        self.add_token_with_literal(TokenType::Number, value_literal);
    }

    fn scan_string(&mut self, quote: char)
        requires
            old(self).wf(),
        ensures
            final(self).wf(),
            final(self)@.source == old(self)@.source,
            final(self)@ == old(self)@.scan_string(quote),
            final(self)@.current >= old(self)@.current,
    {
        let is_multiline = quote == '"' && self.peek() == Some('"') && self.peek_next() == Some(
            '"',
        );
        if is_multiline {
            self.match_char('"');
            self.match_char('"');
        }
        self.continue_string_scan(quote, is_multiline);
    }

    fn continue_string_scan(&mut self, quote: char, is_multiline: bool)
        requires
            old(self).wf(),
        ensures
            final(self).wf(),
            final(self)@.source == old(self)@.source,
            final(self)@ == old(self)@.continue_string(quote, is_multiline),
            final(self)@.current >= old(self)@.current,
    {
        let ghost begin = self@;
        let content_start = self.current;

        loop
            invariant
                self.wf(),
                self@ == begin.move_to(self@.current),
                begin.current <= self@.current,
                begin == old(self)@,
                content_start == begin.current,
                string_stop(begin.source, self@.current, quote, is_multiline) == string_stop(
                    begin.source,
                    begin.current,
                    quote,
                    is_multiline,
                ),
            ensures
                self@.at_end() || (!is_multiline && self@.peek_at(0) == Some('\n'))
                    ==> string_stop(begin.source, self@.current, quote, is_multiline)
                    == StringStop::Unterminated(self@.current),
                !(self@.at_end() || (!is_multiline && self@.peek_at(0) == Some('\n')))
                    ==> string_stop(begin.source, self@.current, quote, is_multiline)
                    == StringStop::Closed(self@.current) && closes_string(
                    begin.source,
                    self@.current,
                    quote,
                    is_multiline,
                ),
            decreases self@.source.len() - self@.current,
        {
            if self.is_at_end() {
                break ;
            }
            if self.peek() == Some('\\') && self.peek_next() == Some('$') {
                self.advance();
                self.advance();
                continue ;
            }
            if self.peek() == Some('$') && self.peek_next() == Some('{') {
                let literal = self.get_slice(content_start, self.current);
                let t_type = Self::get_string_token_type(quote, is_multiline);
                self.add_token_with_literal(t_type, literal);

                self.string_stack.push((quote, is_multiline));

                self.mark_start();
                self.advance();
                self.advance();
                self.add_token(TokenType::DollarLeftBrace);
                return ;
            }
            if is_multiline {
                if self.peek() == Some('"') && self.peek_next() == Some('"') && self.peek_at(2)
                    == Some('"') {
                    break ;
                }
            } else {
                if self.peek() == Some(quote) || self.peek() == Some('\n') {
                    break ;
                }
            }
            let c = self.advance();
            if c == '\\' && !self.is_at_end() {
                self.advance();
            }
        }

        if self.is_at_end() || (!is_multiline && self.peek() == Some('\n')) {
            self.report_error(LexicalErrorType::UnterminatedString, "Unclosed string");
            return ;
        }
        let literal = self.get_slice(content_start, self.current);

        self.advance();
        if is_multiline {
            self.advance();
            self.advance();
        }
        let t_type = Self::get_string_token_type(quote, is_multiline);
        self.add_token_with_literal(t_type, literal);
    }

    fn get_string_token_type(quote: char, is_multiline: bool) -> (kind: TokenType)
        ensures
            kind == string_kind(quote, is_multiline),
    {
        if quote == '"' && is_multiline {
            TokenType::MultilineString
        } else if quote == '"' {
            TokenType::String
        } else if quote == '\'' {
            TokenType::SingleQuotedString
        } else if quote == '`' {
            TokenType::GraveQuotedString
        } else {
            TokenType::String
        }
    }

    fn is_assign_whitespace(&self) -> (b: bool)
        requires
            self.wf(),
        ensures
            b == self@.assign_whitespace(),
    {
        if self.tokens.len() == 0 {
            return false;
        }
        let last = self.tokens[self.tokens.len() - 1].token_type;
        if !last.ends_left_hand_side() {
            return false;
        }
        let mut look: usize = self.current;
        while look < self.source.len() && (self.source[look] == ' ' || self.source[look] == '\t')
            invariant
                self.current <= look <= self.source.len(),
                blanks_end(self.source@, look as int) == blanks_end(
                    self.source@,
                    self.current as int,
                ),
            decreases self.source.len() - look,
        {
            look = look + 1;
        }
        if look >= self.source.len() {
            return false;
        }
        char_starts_value(self.source[look])
    }

    fn handle_indentation(&mut self)
        requires
            old(self).wf(),
        ensures
            final(self).wf(),
            final(self)@.source == old(self)@.source,
            final(self)@ == old(self)@.handle_indentation(),
            final(self)@.current >= old(self)@.current,
    {
        let ghost begin = self@;
        let mut spaces: usize = 0;
        loop
            invariant
                self.wf(),
                self@ == begin.move_to(self@.current),
                begin.current <= self@.current,
                blanks_end(begin.source, self@.current) == blanks_end(begin.source, begin.current),
                0 <= begin.current,
                spaces == blank_width(begin.source, begin.current, self@.current),
                spaces <= 4 * (self@.current - begin.current),
            ensures
                blanks_end(begin.source, self@.current) == self@.current,
            decreases self@.source.len() - self@.current,
        {
            match self.peek() {
                Some(' ') => {
                    spaces = spaces + 1;
                    self.advance();
                },
                Some('\t') => {
                    spaces = spaces + 4;
                    self.advance();
                },
                _ => {
                    break ;
                },
            }
        }

        let next = self.peek();
        if next.is_none() || next == Some('\n') || next == Some('\r') {
            return ;
        }
        if next == Some('/') && (self.peek_next() == Some('|') || self.peek_next() == Some('*')) {
            return ;
        }
        if self.context_stack.len() > 0 {
            self.is_at_line_start = false;
            self.mark_start();
            return ;
        }
        let last_indent = self.last_indent();
        if spaces > last_indent {
            self.push_indent(spaces);
            self.add_token_raw(TokenType::Indent);
        } else if spaces < last_indent {
            let ghost line = self@;
            while self.indent_stack.len() > 1 && spaces < self.last_indent()
                invariant
                    self.wf(),
                    self@.current == line.current,
                    self@.source == line.source,
                    self@.dedent_to(spaces as int) == line.dedent_to(spaces as int),
                decreases self.indent_stack.len(),
            {
                self.pop_indent();
                self.add_token_raw(TokenType::Dedent);
            }
            if self.last_indent() != spaces {
                self.report_error(LexicalErrorType::InvalidIndent, "Inconsistent indentation");
            }
        }
        self.is_at_line_start = false;
        self.mark_start();
    }

    /// Reads up to the end of the line.
    fn skip_line(&mut self)
        requires
            old(self).wf(),
        ensures
            final(self).wf(),
            final(self)@.source == old(self)@.source,
            final(self)@ == old(self)@.move_to(line_end(old(self)@.source, old(self)@.current)),
            final(self)@.current >= old(self)@.current,
    {
        let ghost begin = self@;
        while self.peek() != Some('\n') && !self.is_at_end()
            invariant
                self.wf(),
                self@ == begin.move_to(self@.current),
                begin.current <= self@.current,
                line_end(begin.source, self@.current) == line_end(begin.source, begin.current),
            decreases self@.source.len() - self@.current,
        {
            self.advance();
        }
    }

    /// Reads up to and past the `*/` that closes a block comment, or to the
    /// end of the text.
    fn skip_block_comment(&mut self)
        requires
            old(self).wf(),
        ensures
            final(self).wf(),
            final(self)@.source == old(self)@.source,
            final(self)@ == old(self)@.move_to(
                block_comment_end(old(self)@.source, old(self)@.current),
            ),
            final(self)@.current >= old(self)@.current,
    {
        let ghost begin = self@;
        while !self.is_at_end()
            invariant_except_break
                self.wf(),
                self@ == begin.move_to(self@.current),
                begin.current <= self@.current,
                block_comment_end(begin.source, self@.current) == block_comment_end(
                    begin.source,
                    begin.current,
                ),
            ensures
                self.wf(),
                self@ == begin.move_to(block_comment_end(begin.source, begin.current)),
                self@.current >= begin.current,
            decreases self@.source.len() - self@.current,
        {
            if self.peek() == Some('*') && self.peek_next() == Some('/') {
                self.advance();
                self.advance();
                break ;
            }
            self.advance();
        }
    }

    fn handle_operator(&mut self, c: char)
        requires
            old(self).wf(),
        ensures
            final(self).wf(),
            final(self)@.source == old(self)@.source,
            final(self)@ == old(self)@.scan_operator(c),
            final(self)@.current >= old(self)@.current,
    {
        let op = match_operator(c, self.peek(), self.peek_next());
        proof {
            lemma_operator_for(c, self@.peek_at(0), self@.peek_at(1));
        }
        match op.token_type {
            TokenType::Error => {
                self.report_error(LexicalErrorType::InvalidCharacter(c), "Unexpected character");
            },
            TokenType::LineComment => {
                self.consume(op.consume_count);
                self.skip_line();
            },
            TokenType::BlockComment => {
                self.consume(op.consume_count);
                self.skip_block_comment();
            },
            _ => {
                self.consume(op.consume_count);
                self.add_token(op.token_type);
            },
        }
    }
}

/// Scans `source`: its tokens, from the beginning-of-file token to the
/// end-of-file token, and the diagnostics for what could not be read. The
/// result is `None` where the text is not countable: too long for its
/// positions to be counted on this machine.
pub fn scan(source: &str) -> (r: Option<(Vec<Token>, Vec<LexicalError>)>)
    ensures
        r is Some <==> countable(source@),
        r matches Some((tokens, errors)) ==> {
            &&& token_views(tokens@) == scan_source(source@).tokens
            &&& error_views(errors@) == scan_source(source@).errors
            &&& finished(scan_source(source@))
        },
{
    let length = source.unicode_len();
    if length > (usize::MAX - 4) / 4 {
        return None;
    }
    let mut scanner = Scanner::new(source.to_owned());
    scanner.scan_tokens();
    Some((scanner.tokens, scanner.errors))
}

} // verus!
