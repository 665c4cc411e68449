use crate::lexer::position::Position;
use vstd::prelude::*;

verus! {

/// What went wrong at a place of the source.
#[derive(Debug, Clone, Copy, PartialEq, Eq, Structural)]
pub enum LexicalErrorType {
    /// A string has no closing quote before the end of the text or, on one
    /// line, before the line feed.
    UnterminatedString,
    /// A line steps back to a width that no enclosing block has.
    InvalidIndent,
    /// No rule accepts the character.
    InvalidCharacter(char),
}

/// A diagnostic: scanning goes on after each of them.
#[derive(Debug, Clone, PartialEq)]
pub struct LexicalError {
    pub message: String,
    pub position: Position,
    pub error_type: LexicalErrorType,
}

/// A diagnostic with its message as a sequence of characters.
pub struct LexicalErrorView {
    pub message: Seq<char>,
    pub position: Position,
    pub error_type: LexicalErrorType,
}

impl View for LexicalError {
    type V = LexicalErrorView;

    open spec fn view(&self) -> LexicalErrorView {
        LexicalErrorView {
            message: self.message@,
            position: self.position,
            error_type: self.error_type,
        }
    }
}

/// The views of a list of diagnostics, in order.
pub open spec fn error_views(errors: Seq<LexicalError>) -> Seq<LexicalErrorView> {
    errors.map_values(|e: LexicalError| e@)
}

/// Adding a diagnostic to a list adds its view to the list's views.
pub proof fn lemma_error_views_push(errors: Seq<LexicalError>, e: LexicalError)
    ensures
        error_views(errors.push(e)) == error_views(errors).push(e@),
{
    assert(error_views(errors.push(e)) =~= error_views(errors).push(e@));
}

} // verus!
