use crate::numbers::{decimal_text, push_digits};
use vstd::prelude::*;
use vstd::string::*;

verus! {

/// A place in the source text: 1-based line, 1-based column and 0-based byte
/// offset.
#[derive(Debug, Clone, Copy, PartialEq, Eq, Structural)]
pub struct Position {
    pub line: usize,
    pub column: usize,
    /// Distance from the beginning of the text, in bytes of its UTF-8 form.
    pub offset: usize,
}

/// Number of bytes that `c` takes in UTF-8.
pub open spec fn utf8_width(c: char) -> int {
    if (c as u32) < 0x80 {
        1
    } else if (c as u32) < 0x800 {
        2
    } else if (c as u32) < 0x1_0000 {
        3
    } else {
        4
    }
}

/// Line of the character at index `i` of `src`: one more than the number of
/// line feeds before it.
pub open spec fn line_at(src: Seq<char>, i: int) -> int
    decreases i,
{
    if i <= 0 {
        1
    } else if src[i - 1] == '\n' {
        line_at(src, i - 1) + 1
    } else {
        line_at(src, i - 1)
    }
}

/// Column of the character at index `i` of `src`: one more than the number of
/// characters between it and the last line feed before it.
pub open spec fn column_at(src: Seq<char>, i: int) -> int
    decreases i,
{
    if i <= 0 {
        1
    } else if src[i - 1] == '\n' {
        1
    } else {
        column_at(src, i - 1) + 1
    }
}

/// Byte offset of the character at index `i` of `src`.
pub open spec fn offset_at(src: Seq<char>, i: int) -> int
    decreases i,
{
    if i <= 0 {
        0
    } else {
        offset_at(src, i - 1) + utf8_width(src[i - 1])
    }
}

/// Length of `s` in bytes of its UTF-8 form.
pub open spec fn utf8_len(s: Seq<char>) -> int {
    offset_at(s, s.len() as int)
}

/// A text is countable when every position in it fits the machine's word, a
/// character taking up to four bytes.
pub open spec fn countable(src: Seq<char>) -> bool {
    4 * src.len() + 4 <= usize::MAX
}

/// The position of the character at index `i` of `src`.
pub open spec fn position_at(src: Seq<char>, i: int) -> Position {
    Position {
        line: line_at(src, i) as usize,
        column: column_at(src, i) as usize,
        offset: offset_at(src, i) as usize,
    }
}

/// Lines and columns never exceed the number of characters passed by more
/// than one, and a character takes at most four bytes.
pub proof fn lemma_position_bounds(src: Seq<char>, i: int)
    requires
        0 <= i,
    ensures
        1 <= line_at(src, i) <= i + 1,
        1 <= column_at(src, i) <= i + 1,
        i <= offset_at(src, i) <= 4 * i,
    decreases i,
{
    if i > 0 {
        lemma_position_bounds(src, i - 1);
    }
}

/// Offsets grow with the index.
pub proof fn lemma_offset_monotonic(src: Seq<char>, i: int, j: int)
    requires
        0 <= i <= j,
    ensures
        offset_at(src, i) <= offset_at(src, j),
    decreases j - i,
{
    if i < j {
        lemma_offset_monotonic(src, i, j - 1);
    }
}

/// The offset of an index depends on the characters before it alone.
pub proof fn lemma_offset_of_prefix(a: Seq<char>, b: Seq<char>, i: int)
    requires
        0 <= i <= a.len(),
        i <= b.len(),
        forall|k: int| 0 <= k < i ==> a[k] == b[k],
    ensures
        offset_at(a, i) == offset_at(b, i),
    decreases i,
{
    if i > 0 {
        lemma_offset_of_prefix(a, b, i - 1);
    }
}

/// The bytes between two indices are the bytes of the text between them.
pub proof fn lemma_offset_of_subrange(src: Seq<char>, from: int, to: int)
    requires
        0 <= from <= to <= src.len(),
    ensures
        offset_at(src, to) - offset_at(src, from) == utf8_len(src.subrange(from, to)),
    decreases to - from,
{
    if from < to {
        lemma_offset_of_subrange(src, from, to - 1);
        lemma_offset_of_prefix(src.subrange(from, to), src.subrange(from, to - 1), to - 1 - from);
    }
}

impl Position {
    pub fn new(line: usize, column: usize, offset: usize) -> (p: Self)
        ensures
            p == (Position { line, column, offset }),
    {
        Self { line, column, offset }
    }

    /// The position of the first character of any text.
    pub open spec fn origin() -> Position {
        Position { line: 1, column: 1, offset: 0 }
    }

    pub fn start() -> (p: Self)
        ensures
            p == Position::origin(),
    {
        Self { line: 1, column: 1, offset: 0 }
    }

    /// The position that follows `self` once `c` has been read: a line feed
    /// opens a new line, any other character moves one column to the right.
    pub open spec fn advanced(self, c: char) -> Position {
        Position {
            line: if c == '\n' {
                (self.line + 1) as usize
            } else {
                self.line
            },
            column: if c == '\n' {
                1
            } else {
                (self.column + 1) as usize
            },
            offset: (self.offset + utf8_width(c)) as usize,
        }
    }

    /// The position in words: its line and its column.
    pub open spec fn described(self) -> Seq<char> {
        "line "@ + decimal_text(self.line as int) + ", col "@ + decimal_text(self.column as int)
    }

    /// The position in words, for a reader.
    pub fn describe(&self) -> (text: String)
        ensures
            text@ == self.described(),
    {
        let mut text = String::new();
        text.append("line ");
        push_digits(&mut text, self.line as u128, 10, false);
        text.append(", col ");
        push_digits(&mut text, self.column as u128, 10, false);
        assert(text@ =~= self.described());
        text
    }

    /// Moves the position past `c`.
    pub fn advance(&mut self, c: char)
        requires
            old(self).line < usize::MAX,
            old(self).column < usize::MAX,
            old(self).offset + 4 <= usize::MAX,
        ensures
            *final(self) == old(self).advanced(c),
    {
        let code: u32 = c as u32;
        let width: usize = if code < 0x80 {
            1
        } else if code < 0x800 {
            2
        } else if code < 0x1_0000 {
            3
        } else {
            4
        };
        self.offset = self.offset + width;
        if c == '\n' {
            self.line = self.line + 1;
            self.column = 1;
        } else {
            self.column = self.column + 1;
        }
    }
}

/// Reading the character at index `i` takes the position of `i` to that of
/// `i + 1`.
pub proof fn lemma_position_step(src: Seq<char>, i: int)
    requires
        0 <= i < src.len(),
        countable(src),
    ensures
        position_at(src, i + 1) == position_at(src, i).advanced(src[i]),
{
    lemma_position_bounds(src, i);
    lemma_position_bounds(src, i + 1);
}

} // verus!
