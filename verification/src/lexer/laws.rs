//! What holds of every scan: it reads the whole text and ends; its stream of
//! tokens is framed by the beginning-of-file and end-of-file tokens; the
//! blocks of the stream are balanced; each diagnostic has its placeholder in
//! the stream; each token is well formed; and the tokens come in the order of
//! the text.

use crate::lexer::error::{LexicalErrorType, LexicalErrorView};
use crate::lexer::keywords::{keyword_kind, lemma_keyword_kind};
use crate::lexer::model::{
    blank_width, blanks_end, identifier_end, invalid_character_message, invalid_indent_message,
    number_end, scan_source, string_kind, string_stop, suffix_end, unclosed_string_message,
    ScanState, StringStop,
};
use crate::lexer::operators::{lemma_operator_for, operator_for};
use crate::lexer::position::{
    countable, lemma_offset_monotonic, lemma_offset_of_subrange, lemma_position_bounds,
    offset_at, position_at, utf8_len, Position,
};
use crate::lexer::progress::{
    lemma_blanks_end, lemma_block_comment_end, lemma_identifier_end, lemma_line_end,
    lemma_number_end, lemma_string_stop, lemma_suffix_end,
};
use crate::lexer::suffix::{lemma_unit_kind, unit_kind};
use crate::lexer::token::TokenView;
use crate::lexer::token_type::TokenType;
use vstd::prelude::*;

verus! {

/// The number of `Indent` tokens in `tokens`, less the number of `Dedent`
/// tokens: the number of blocks that are open behind the last token.
pub open spec fn indent_depth(tokens: Seq<TokenView>) -> int
    decreases tokens.len(),
{
    if tokens.len() == 0 {
        0
    } else if tokens.last().token_type == TokenType::Indent {
        indent_depth(tokens.drop_last()) + 1
    } else if tokens.last().token_type == TokenType::Dedent {
        indent_depth(tokens.drop_last()) - 1
    } else {
        indent_depth(tokens.drop_last())
    }
}

/// A stream is framed when it begins with the one beginning-of-file token it
/// holds and ends with the one end-of-file token it holds.
pub open spec fn framed(tokens: Seq<TokenView>) -> bool {
    &&& tokens.len() >= 2
    &&& tokens[0].token_type == TokenType::BOF
    &&& tokens.last().token_type == TokenType::EOF
    &&& forall|i: int| 0 < i < tokens.len() ==> tokens[i].token_type != TokenType::BOF
    &&& forall|i: int| 0 <= i < tokens.len() - 1 ==> tokens[i].token_type != TokenType::EOF
}

/// A stream is balanced when it closes as many blocks as it opens, and at no
/// point has closed more blocks than it has opened.
pub open spec fn balanced(tokens: Seq<TokenView>) -> bool {
    &&& indent_depth(tokens) == 0
    &&& forall|k: int| 0 <= k <= tokens.len() ==> indent_depth(#[trigger] tokens.take(k)) >= 0
}

/// The positions of the `Error` tokens of `tokens`, in order.
pub open spec fn placeholders(tokens: Seq<TokenView>) -> Seq<Position>
    decreases tokens.len(),
{
    if tokens.len() == 0 {
        Seq::empty()
    } else if tokens.last().token_type == TokenType::Error {
        placeholders(tokens.drop_last()).push(tokens.last().position)
    } else {
        placeholders(tokens.drop_last())
    }
}

/// The positions of the diagnostics `errors`, in order.
pub open spec fn reported(errors: Seq<LexicalErrorView>) -> Seq<Position> {
    errors.map_values(|e: LexicalErrorView| e.position)
}

/// Tokens and diagnostics are paired when each diagnostic has its `Error`
/// token at its own position, in the same order, and no `Error` token is
/// without its diagnostic.
pub open spec fn paired(tokens: Seq<TokenView>, errors: Seq<LexicalErrorView>) -> bool {
    placeholders(tokens) == reported(errors)
}

/// A token is well formed when it has a value exactly if it is a string, a
/// number or a number with a unit, and its length is that of its text in
/// bytes, cut to 32 bits.
pub open spec fn well_formed(t: TokenView) -> bool {
    &&& t.literal is Some <==> t.token_type.carries_literal()
    &&& t.length == utf8_len(t.lexeme) as u32
}

pub open spec fn all_well_formed(tokens: Seq<TokenView>) -> bool {
    forall|i: int| 0 <= i < tokens.len() ==> well_formed(#[trigger] tokens[i])
}

/// The tokens come in the order of the text: none begins before the one
/// before it.
pub open spec fn ordered(tokens: Seq<TokenView>) -> bool {
    forall|i: int, j: int|
        0 <= i <= j < tokens.len() ==> tokens[i].position.offset <= tokens[j].position.offset
}

/// What holds of the tokens and of the open blocks at every point of a scan
/// after its first token: the stream begins with the only beginning-of-file
/// token, holds no end-of-file token yet, and has opened, and not closed,
/// one block for each width above the first.
pub open spec fn layout_ok(st: ScanState) -> bool {
    &&& st.tokens.len() >= 1
    &&& st.tokens[0].token_type == TokenType::BOF
    &&& forall|i: int| 0 < i < st.tokens.len() ==> st.tokens[i].token_type != TokenType::BOF
    &&& forall|i: int| 0 <= i < st.tokens.len() ==> st.tokens[i].token_type != TokenType::EOF
    &&& indent_depth(st.tokens) == st.indent_stack.len() - 1
    &&& forall|k: int|
        0 <= k <= st.tokens.len() ==> indent_depth(#[trigger] st.tokens.take(k)) >= 0
}

/// No token begins behind the lexeme under way.
pub open spec fn behind_start(st: ScanState) -> bool {
    forall|i: int|
        0 <= i < st.tokens.len() ==> (#[trigger] st.tokens[i]).position.offset <= offset_at(
            st.source,
            st.start,
        )
}

/// What holds at every point of a scan after its first token.
#[verifier::opaque]
pub open spec fn stream_ok(st: ScanState) -> bool {
    &&& st.inv()
    &&& layout_ok(st)
    &&& paired(st.tokens, st.errors)
    &&& all_well_formed(st.tokens)
    &&& countable(st.source) ==> ordered(st.tokens) && behind_start(st)
}

/// The second state is in order if the first one is, over the same text, and
/// no character of the text has been given back on the way to it.
pub open spec fn follows(from: ScanState, to: ScanState) -> bool {
    &&& stream_ok(to)
    &&& to.inv()
    &&& to.source == from.source
    &&& from.current <= to.current
}

/// Every prefix of a stream with one more token is a prefix of the stream, or
/// the longer stream itself.
proof fn lemma_prefixes_of_push(tokens: Seq<TokenView>, t: TokenView)
    requires
        forall|k: int| 0 <= k <= tokens.len() ==> indent_depth(#[trigger] tokens.take(k)) >= 0,
        indent_depth(tokens.push(t)) >= 0,
    ensures
        forall|k: int|
            0 <= k <= tokens.push(t).len() ==> indent_depth(#[trigger] tokens.push(t).take(k))
                >= 0,
{
    let longer = tokens.push(t);
    assert forall|k: int| 0 <= k <= longer.len() implies indent_depth(#[trigger] longer.take(k))
        >= 0 by {
        if k <= tokens.len() {
            assert(longer.take(k) =~= tokens.take(k));
        } else {
            assert(longer.take(k) =~= longer);
        }
    }
}

/// A well-formed token at the start of the lexeme under way, which is none
/// of the four layout kinds and no placeholder, leaves the stream in order.
proof fn lemma_emit(st: ScanState, t: TokenView)
    requires
        stream_ok(st),
        !t.token_type.is_layout(),
        t.token_type != TokenType::Error,
        well_formed(t),
        t.position == position_at(st.source, st.start),
    ensures
        follows(st, st.emit(t)),
{
    reveal(stream_ok);
    assert(st.tokens.push(t).drop_last() =~= st.tokens);
    lemma_prefixes_of_push(st.tokens, t);
    lemma_position_bounds(st.source, st.start);
}

proof fn lemma_add_token(st: ScanState, kind: TokenType)
    requires
        stream_ok(st),
        !kind.is_layout(),
        kind != TokenType::Error,
        !kind.carries_literal(),
    ensures
        follows(st, st.add_token(kind)),
{
    reveal(stream_ok);
    lemma_offset_of_subrange(st.source, st.start, st.current);
    lemma_emit(st, st.token(kind, None));
}

proof fn lemma_add_literal(st: ScanState, kind: TokenType, literal: Seq<char>)
    requires
        stream_ok(st),
        kind.carries_literal(),
    ensures
        follows(st, st.add_literal(kind, literal)),
{
    reveal(stream_ok);
    lemma_offset_of_subrange(st.source, st.start, st.current);
    lemma_emit(st, st.token(kind, Some(literal)));
}

proof fn lemma_add_raw(st: ScanState, kind: TokenType)
    requires
        stream_ok(st),
        kind == TokenType::Whitespace || kind == TokenType::Newline,
    ensures
        follows(st, st.add_raw(kind)),
{
    reveal(stream_ok);
    assert(utf8_len(Seq::<char>::empty()) == 0);
    lemma_emit(st, st.raw_token(kind));
}

/// A diagnostic with its placeholder leaves the stream in order.
proof fn lemma_report(st: ScanState, error_type: LexicalErrorType, message: Seq<char>)
    requires
        stream_ok(st),
    ensures
        follows(st, st.report(error_type, message)),
{
    reveal(stream_ok);
    let t = st.token(TokenType::Error, None);
    let error = LexicalErrorView { message, position: position_at(st.source, st.start), error_type };
    lemma_offset_of_subrange(st.source, st.start, st.current);
    assert(st.tokens.push(t).drop_last() =~= st.tokens);
    lemma_prefixes_of_push(st.tokens, t);
    lemma_position_bounds(st.source, st.start);
    assert(reported(st.errors.push(error)) =~= reported(st.errors).push(t.position));
}

/// Opening a wider block with an `Indent` leaves the stream in order.
proof fn lemma_open_block(st: ScanState, width: int)
    requires
        stream_ok(st),
        width > st.indent_stack.last(),
    ensures
        follows(st, st.push_indent(width).add_raw(TokenType::Indent)),
{
    reveal(stream_ok);
    let t = st.push_indent(width).raw_token(TokenType::Indent);
    assert(utf8_len(Seq::<char>::empty()) == 0);
    assert(st.tokens.push(t).drop_last() =~= st.tokens);
    lemma_prefixes_of_push(st.tokens, t);
    lemma_position_bounds(st.source, st.start);
}

/// Closing the innermost block with a `Dedent` leaves the stream in order,
/// as long as a block is open.
proof fn lemma_close_block(st: ScanState)
    requires
        stream_ok(st),
        st.indent_stack.len() > 1,
    ensures
        follows(st, st.pop_indent().add_raw(TokenType::Dedent)),
{
    reveal(stream_ok);
    let t = st.pop_indent().raw_token(TokenType::Dedent);
    assert(utf8_len(Seq::<char>::empty()) == 0);
    assert(st.tokens.push(t).drop_last() =~= st.tokens);
    lemma_prefixes_of_push(st.tokens, t);
    lemma_position_bounds(st.source, st.start);
}

/// A state in order is one that a scan can reach.
proof fn lemma_in_order(st: ScanState)
    requires
        stream_ok(st),
    ensures
        st.inv(),
{
    reveal(stream_ok);
}

/// A state that differs from one in order by more characters read, and
/// otherwise only in what the stream does not depend on, is in order.
proof fn lemma_reframe(from: ScanState, to: ScanState)
    requires
        stream_ok(from),
        to.source == from.source,
        to.tokens == from.tokens,
        to.errors == from.errors,
        to.start == from.start,
        to.indent_stack == from.indent_stack,
        from.current <= to.current <= from.source.len(),
    ensures
        follows(from, to),
{
    reveal(stream_ok);
}

/// Beginning a new lexeme at the next character leaves the stream in order.
proof fn lemma_mark_start(st: ScanState)
    requires
        stream_ok(st),
    ensures
        follows(st, st.mark_start()),
{
    reveal(stream_ok);
    lemma_offset_monotonic(st.source, st.start, st.current);
}

proof fn lemma_scan_identifier(st: ScanState)
    requires
        stream_ok(st),
    ensures
        follows(st, st.scan_identifier()),
{
    reveal(stream_ok);
    lemma_identifier_end(st.source, st.current);
    let end = identifier_end(st.source, st.current);
    lemma_keyword_kind(st.source.subrange(st.start, end));
    let kind = match keyword_kind(st.source.subrange(st.start, end)) {
        Some(kind) => kind,
        None => TokenType::Identifier,
    };
    lemma_add_token(st.move_to(end), kind);
}

proof fn lemma_scan_number(st: ScanState)
    requires
        stream_ok(st),
    ensures
        follows(st, st.scan_number()),
{
    reveal(stream_ok);
    lemma_number_end(st.source, st.current);
    let end = number_end(st.source, st.current);
    lemma_suffix_end(st.source, end);
    let value = st.source.subrange(st.start, end);
    let after = suffix_end(st.source, end);
    lemma_unit_kind(st.source.subrange(end, after));
    if end + 1 <= st.source.len() {
        lemma_add_literal(st.move_to(end + 1), TokenType::UnitPercent, value);
    }
    lemma_add_literal(st.move_to(end), TokenType::Number, value);
    if unit_kind(st.source.subrange(end, after)) is Some {
        lemma_add_literal(st.move_to(after), unit_kind(st.source.subrange(end, after))->0, value);
    }
}

proof fn lemma_continue_string(st: ScanState, quote: char, multiline: bool)
    requires
        stream_ok(st),
    ensures
        follows(st, st.continue_string(quote, multiline)),
{
    reveal(stream_ok);
    lemma_string_stop(st.source, st.current, quote, multiline);
    let kind = string_kind(quote, multiline);
    match string_stop(st.source, st.current, quote, multiline) {
        StringStop::Interpolation(i) => {
            let literal = st.source.subrange(st.current, i);
            lemma_add_literal(st.move_to(i), kind, literal);
            let pushed = st.move_to(i).add_literal(kind, literal).push_string(quote, multiline);
            lemma_mark_start(pushed);
            lemma_add_token(pushed.mark_start().move_to(i + 2), TokenType::DollarLeftBrace);
        },
        StringStop::Unterminated(i) => {
            lemma_report(
                st.move_to(i),
                LexicalErrorType::UnterminatedString,
                unclosed_string_message(),
            );
        },
        StringStop::Closed(i) => {
            let literal = st.source.subrange(st.current, i);
            let past = st.move_to(
                i + if multiline {
                    3int
                } else {
                    1int
                },
            );
            lemma_add_literal(past, kind, literal);
        },
    }
}

proof fn lemma_scan_string(st: ScanState, quote: char)
    requires
        stream_ok(st),
    ensures
        follows(st, st.scan_string(quote)),
{
    reveal(stream_ok);
    lemma_continue_string(st, quote, false);
    if st.current + 2 <= st.source.len() {
        lemma_continue_string(st.move_to(st.current + 2), quote, true);
    }
}

proof fn lemma_scan_operator(st: ScanState, c: char)
    requires
        stream_ok(st),
    ensures
        follows(st, st.scan_operator(c)),
{
    reveal(stream_ok);
    let op = operator_for(c, st.peek_at(0), st.peek_at(1));
    lemma_operator_for(c, st.peek_at(0), st.peek_at(1));
    let past = st.move_to(st.current + op.consume_count);
    lemma_line_end(st.source, past.current);
    lemma_block_comment_end(st.source, past.current);
    lemma_report(st, LexicalErrorType::InvalidCharacter(c), invalid_character_message());
    if op.token_type != TokenType::Error {
        lemma_add_token(past, op.token_type);
    }
}

proof fn lemma_dedent_to(st: ScanState, width: int)
    requires
        stream_ok(st),
    ensures
        follows(st, st.dedent_to(width)),
    decreases st.indent_stack.len(),
{
    reveal(stream_ok);
    if st.indent_stack.len() > 1 && width < st.indent_stack.last() {
        lemma_close_block(st);
        lemma_dedent_to(st.pop_indent().add_raw(TokenType::Dedent), width);
    }
}

proof fn lemma_handle_indentation(st: ScanState)
    requires
        stream_ok(st),
    ensures
        follows(st, st.handle_indentation()),
{
    reveal(stream_ok);
    lemma_blanks_end(st.source, st.current);
    let end = blanks_end(st.source, st.current);
    let width = blank_width(st.source, st.current, end);
    let line = st.move_to(end);
    lemma_mark_start(line.set_line_start(false));
    if width > line.indent_stack.last() {
        lemma_open_block(line, width);
    }
    lemma_dedent_to(line, width);
    lemma_report(line.dedent_to(width), LexicalErrorType::InvalidIndent, invalid_indent_message());
    lemma_mark_start(line.apply_indent(width).set_line_start(false));
}

proof fn lemma_scan_token(st: ScanState)
    requires
        stream_ok(st),
        !st.at_end(),
    ensures
        follows(st, st.scan_token()),
        st.scan_token().current > st.current,
{
    lemma_in_order(st);
    let c = st.source[st.current];
    let read = st.move_to(st.current + 1);
    lemma_reframe(st, read);
    lemma_reframe(st, read.push_context(TokenType::LeftParen));
    lemma_reframe(st, read.push_context(TokenType::LeftBracket));
    lemma_reframe(st, read.push_context(TokenType::LeftBrace));
    lemma_reframe(st, read.pop_context());
    lemma_reframe(st, read.set_line_start(false));
    lemma_mark_start(read);
    lemma_add_raw(read, TokenType::Whitespace);
    lemma_mark_start(read.add_raw(TokenType::Whitespace));
    lemma_add_raw(read, TokenType::Newline);
    lemma_reframe(
        read.add_raw(TokenType::Newline),
        read.add_raw(TokenType::Newline).set_line_start(true),
    );
    lemma_mark_start(read.add_raw(TokenType::Newline).set_line_start(true));
    lemma_scan_string(read, c);
    lemma_scan_operator(read.push_context(TokenType::LeftParen), c);
    lemma_scan_operator(read.push_context(TokenType::LeftBracket), c);
    lemma_scan_operator(read.push_context(TokenType::LeftBrace), c);
    lemma_scan_operator(read.pop_context(), c);
    let closed = read.pop_context().scan_operator(c);
    if closed.string_stack.len() > 0 {
        lemma_reframe(closed, closed.pop_string());
        lemma_mark_start(closed.pop_string());
        lemma_continue_string(
            closed.pop_string().mark_start(),
            closed.string_stack.last().0,
            closed.string_stack.last().1,
        );
    }
    lemma_scan_identifier(read);
    lemma_scan_operator(read, c);
    lemma_scan_number(read.set_line_start(false));
    lemma_scan_identifier(read.set_line_start(false));
    lemma_scan_operator(read.set_line_start(false), c);
}

/// One turn of the scanner leaves the stream in order and reads at least
/// one character.
proof fn lemma_iteration(st: ScanState)
    requires
        stream_ok(st),
        !st.at_end(),
    ensures
        follows(st, st.iteration()),
        st.iteration().current > st.current,
{
    lemma_in_order(st);
    let begun = st.mark_start();
    lemma_mark_start(st);
    lemma_handle_indentation(begun);
    let laid_out = if begun.is_at_line_start {
        begun.handle_indentation()
    } else {
        begun
    };
    if !laid_out.at_end() {
        lemma_scan_token(laid_out);
    }
}

/// The turns of the scanner go on to the end of the text.
proof fn lemma_run(st: ScanState)
    requires
        stream_ok(st),
    ensures
        follows(st, st.run()),
        st.run().current == st.source.len(),
    decreases st.source.len() - st.current,
{
    lemma_in_order(st);
    if st.current < st.source.len() {
        lemma_iteration(st);
        lemma_run(st.iteration());
    }
}

proof fn lemma_close_blocks(st: ScanState)
    requires
        stream_ok(st),
    ensures
        follows(st, st.close_blocks()),
        st.close_blocks().current == st.current,
        st.close_blocks().indent_stack.len() == 1,
    decreases st.indent_stack.len(),
{
    reveal(stream_ok);
    if st.indent_stack.len() > 1 {
        lemma_close_block(st);
        lemma_close_blocks(st.pop_indent().add_raw(TokenType::Dedent));
    }
}

/// What holds of a state at the end of a scan.
pub open spec fn finished(st: ScanState) -> bool {
    &&& st.inv()
    &&& st.current == st.source.len()
    &&& st.indent_stack.len() == 1
    &&& framed(st.tokens)
    &&& balanced(st.tokens)
    &&& paired(st.tokens, st.errors)
    &&& all_well_formed(st.tokens)
    &&& countable(st.source) ==> ordered(st.tokens)
}

proof fn lemma_finish(st: ScanState)
    requires
        stream_ok(st),
        st.current == st.source.len(),
    ensures
        finished(st.finish()),
        st.finish().source == st.source,
{
    reveal(stream_ok);
    lemma_close_blocks(st);
    let closed = st.close_blocks();
    let t = closed.eof_token();
    assert(utf8_len(Seq::<char>::empty()) == 0);
    assert(closed.tokens.push(t).drop_last() =~= closed.tokens);
    lemma_prefixes_of_push(closed.tokens, t);
    lemma_position_bounds(closed.source, closed.current);
    lemma_offset_monotonic(closed.source, closed.start, closed.current);
}

/// A scan that begins without tokens and without diagnostics reads the text
/// to its end and closes every block; its stream is framed and balanced,
/// paired with its diagnostics, made of well-formed tokens and, in a
/// countable text, ordered.
pub proof fn lemma_scan_all(st: ScanState)
    requires
        st.inv(),
        st.tokens.len() == 0,
        st.errors.len() == 0,
        st.indent_stack.len() == 1,
    ensures
        finished(st.scan_all()),
        st.scan_all().source == st.source,
{
    reveal(stream_ok);
    let first = st.add_raw(TokenType::BOF);
    assert(first.tokens.drop_last() =~= st.tokens);
    assert(indent_depth(st.tokens) == 0);
    assert(indent_depth(first.tokens) == 0);
    assert(placeholders(st.tokens) =~= Seq::empty());
    assert(reported(st.errors) =~= Seq::empty());
    assert(utf8_len(Seq::<char>::empty()) == 0);
    assert forall|k: int| 0 <= k <= first.tokens.len() implies indent_depth(
        #[trigger] first.tokens.take(k),
    ) >= 0 by {
        if k == 0 {
            assert(first.tokens.take(0).len() == 0);
        } else {
            assert(first.tokens.take(k) =~= first.tokens);
        }
    }
    lemma_position_bounds(st.source, st.start);
    assert(stream_ok(first));
    lemma_run(first);
    lemma_finish(first.run());
}

/// Whatever the text, its scan ends, having read all of it: the state at the
/// end stands at the end of the text, with every block closed.
pub proof fn lemma_scan_reads_the_text(source: Seq<char>)
    ensures
        scan_source(source).inv(),
        scan_source(source).source == source,
        scan_source(source).current == source.len(),
        scan_source(source).indent_stack.len() == 1,
{
    lemma_scan_all(ScanState::initial(source));
}

/// Whatever the text, the tokens of a scan begin with the one
/// beginning-of-file token among them and end with the one end-of-file token
/// among them.
pub proof fn lemma_stream_is_framed(source: Seq<char>)
    ensures
        framed(scan_source(source).tokens),
{
    lemma_scan_all(ScanState::initial(source));
}

/// Whatever the text, the tokens of a scan hold as many `Dedent` tokens as
/// `Indent` tokens, and no beginning of them holds more `Dedent` tokens than
/// `Indent` tokens.
pub proof fn lemma_blocks_are_balanced(source: Seq<char>)
    ensures
        balanced(scan_source(source).tokens),
{
    lemma_scan_all(ScanState::initial(source));
}

/// Whatever the text, each diagnostic of a scan has its `Error` token in the
/// stream, at its own position and in the same order, and the stream holds
/// no other `Error` token.
pub proof fn lemma_errors_are_paired(source: Seq<char>)
    ensures
        paired(scan_source(source).tokens, scan_source(source).errors),
{
    lemma_scan_all(ScanState::initial(source));
}

/// Whatever the text, a token of its scan has a value exactly if it is a
/// string, a number or a number with a unit, and its length is that of its
/// text in bytes, cut to 32 bits.
pub proof fn lemma_tokens_are_well_formed(source: Seq<char>)
    ensures
        all_well_formed(scan_source(source).tokens),
{
    lemma_scan_all(ScanState::initial(source));
}

/// In a countable text, no token of the scan begins before the token before
/// it.
pub proof fn lemma_positions_never_go_back(source: Seq<char>)
    requires
        countable(source),
    ensures
        ordered(scan_source(source).tokens),
{
    lemma_scan_all(ScanState::initial(source));
}

} // verus!
