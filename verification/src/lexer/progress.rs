//! The runs that the scanner reads end inside the text, at or behind their
//! beginning: no step of a scan leaves the text or goes back in it.

use crate::lexer::model::{
    blanks_end, block_comment_end, digits_end, identifier_end, line_end, number_end, string_stop,
    suffix_end,
};
use vstd::prelude::*;

verus! {

/// A run of blanks ends inside the text, at or behind its beginning.
pub proof fn lemma_blanks_end(src: Seq<char>, i: int)
    requires
        0 <= i <= src.len(),
    ensures
        i <= blanks_end(src, i) <= src.len(),
    decreases src.len() - i,
{
    if i < src.len() && blanks_end(src, i) != i {
        lemma_blanks_end(src, i + 1);
    }
}

/// A run of digits ends inside the text, at or behind its beginning.
pub proof fn lemma_digits_end(src: Seq<char>, i: int)
    requires
        0 <= i <= src.len(),
    ensures
        i <= digits_end(src, i) <= src.len(),
    decreases src.len() - i,
{
    if i < src.len() && digits_end(src, i) != i {
        lemma_digits_end(src, i + 1);
    }
}

/// A number ends inside the text, at or behind its beginning.
pub proof fn lemma_number_end(src: Seq<char>, i: int)
    requires
        0 <= i <= src.len(),
    ensures
        i <= number_end(src, i) <= src.len(),
{
    lemma_digits_end(src, i);
    let whole = digits_end(src, i);
    if whole + 1 <= src.len() {
        lemma_digits_end(src, whole + 1);
    }
}

/// A run of unit characters ends inside the text, at or behind its
/// beginning.
pub proof fn lemma_suffix_end(src: Seq<char>, i: int)
    requires
        0 <= i <= src.len(),
    ensures
        i <= suffix_end(src, i) <= src.len(),
    decreases src.len() - i,
{
    if i < src.len() && suffix_end(src, i) != i {
        lemma_suffix_end(src, i + 1);
    }
}

/// An identifier ends inside the text, at or behind its beginning.
pub proof fn lemma_identifier_end(src: Seq<char>, i: int)
    requires
        0 <= i <= src.len(),
    ensures
        i <= identifier_end(src, i) <= src.len(),
    decreases src.len() - i,
{
    if i < src.len() && identifier_end(src, i) != i {
        lemma_identifier_end(src, i + 1);
    }
}

/// A line ends inside the text, at or behind its beginning.
pub proof fn lemma_line_end(src: Seq<char>, i: int)
    requires
        0 <= i <= src.len(),
    ensures
        i <= line_end(src, i) <= src.len(),
    decreases src.len() - i,
{
    if i < src.len() && line_end(src, i) != i {
        lemma_line_end(src, i + 1);
    }
}

/// A block comment ends inside the text, at or behind its beginning.
pub proof fn lemma_block_comment_end(src: Seq<char>, i: int)
    requires
        0 <= i <= src.len(),
    ensures
        i <= block_comment_end(src, i) <= src.len(),
    decreases src.len() - i,
{
    if i < src.len() && !(src[i] == '*' && i + 1 < src.len() && src[i + 1] == '/') {
        lemma_block_comment_end(src, i + 1);
    }
}

/// The content of a string stops inside the text, at or behind its
/// beginning, and what it stops at lies inside the text as well.
pub proof fn lemma_string_stop(src: Seq<char>, i: int, quote: char, multiline: bool)
    requires
        0 <= i <= src.len(),
    ensures
        i <= string_stop(src, i, quote, multiline).index() <= src.len(),
        string_stop(src, i, quote, multiline) is Interpolation ==> string_stop(
            src,
            i,
            quote,
            multiline,
        ).index() + 2 <= src.len(),
        string_stop(src, i, quote, multiline) is Closed ==> string_stop(
            src,
            i,
            quote,
            multiline,
        ).index() + (if multiline {
            3int
        } else {
            1int
        }) <= src.len(),
    decreases src.len() - i,
{
    if i < src.len() {
        if i + 2 <= src.len() {
            lemma_string_stop(src, i + 2, quote, multiline);
        }
        lemma_string_stop(src, i + 1, quote, multiline);
    }
}

} // verus!
