use crate::lexer::position::Position;
use crate::lexer::token_type::TokenType;
use vstd::prelude::*;
use vstd::string::*;

verus! {

/// Bit of [`TokenFlags`]: the token is the first one of its line.
pub const AT_LINE_START: u8 = 1;

/// Bit of [`TokenFlags`]: blank space stands before the token.
pub const HAS_PRECEDING_WHITESPACE: u8 = 2;

/// A small set of marks on a token, one bit each.
#[derive(Debug, Clone, Copy, PartialEq, Eq, Structural)]
pub struct TokenFlags {
    pub bits: u8,
}

impl TokenFlags {
    /// The set without any mark.
    pub fn empty() -> (f: Self)
        ensures
            f.bits == 0,
    {
        TokenFlags { bits: 0 }
    }

    /// The set that holds the bits of `bits` that are marks, and no others.
    pub fn from_bits_truncate(bits: u8) -> (f: Self)
        ensures
            f.bits == bits & 3,
    {
        TokenFlags { bits: bits & 3 }
    }

    /// Whether every mark of `other` is in `self`.
    pub open spec fn has(self, other: TokenFlags) -> bool {
        self.bits & other.bits == other.bits
    }

    pub fn contains(&self, other: TokenFlags) -> (b: bool)
        ensures
            b == self.has(other),
    {
        self.bits & other.bits == other.bits
    }

    /// Adds the marks of `other`.
    pub fn insert(&mut self, other: TokenFlags)
        ensures
            final(self).bits == old(self).bits | other.bits,
    {
        self.bits = self.bits | other.bits;
    }

    /// The marks of a token that is or is not the first of its line, and has
    /// or has not blank space before it.
    pub open spec fn of(at_line_start: bool, has_whitespace: bool) -> TokenFlags {
        TokenFlags {
            bits: if at_line_start {
                if has_whitespace {
                    3
                } else {
                    1
                }
            } else {
                if has_whitespace {
                    2
                } else {
                    0
                }
            },
        }
    }
}

/// The smallest lexical unit of the language.
#[derive(Debug, Clone, PartialEq)]
pub struct Token {
    /// The text of the token, as it stands in the source.
    pub lexeme: String,
    /// The value of a string or of a number, without quotes or unit.
    pub literal: Option<String>,
    /// Where the token begins.
    pub position: Position,
    pub token_type: TokenType,
    /// Length of the lexeme in bytes.
    pub length: u32,
    pub flags: TokenFlags,
}

/// A token with its texts as sequences of characters.
pub struct TokenView {
    pub lexeme: Seq<char>,
    pub literal: Option<Seq<char>>,
    pub position: Position,
    pub token_type: TokenType,
    pub length: u32,
    pub flags: TokenFlags,
}

impl View for Token {
    type V = TokenView;

    open spec fn view(&self) -> TokenView {
        TokenView {
            lexeme: self.lexeme@,
            literal: match self.literal {
                Some(text) => Some(text@),
                None => None,
            },
            position: self.position,
            token_type: self.token_type,
            length: self.length,
            flags: self.flags,
        }
    }
}

/// The marks of a token in words: ` [SOL]` for the first token of a line,
/// ` [WS]` for a token with blank space before it.
pub open spec fn markers(flags: TokenFlags) -> Seq<char> {
    (if flags.has(TokenFlags { bits: AT_LINE_START }) {
        " [SOL]"@
    } else {
        Seq::empty()
    }) + (if flags.has(TokenFlags { bits: HAS_PRECEDING_WHITESPACE }) {
        " [WS]"@
    } else {
        Seq::empty()
    })
}

/// The value of a token in words, where it has one.
pub open spec fn literal_note(literal: Option<Seq<char>>) -> Seq<char> {
    match literal {
        Some(text) => " (value: "@ + text + ")"@,
        None => Seq::empty(),
    }
}

/// A token in words: its kind and marks in square brackets, its text in
/// quotes, its value where it has one, and its position.
pub open spec fn described(t: TokenView) -> Seq<char> {
    "["@ + t.token_type.name() + markers(t.flags) + "] '"@ + t.lexeme + "'"@ + literal_note(
        t.literal,
    ) + " at "@ + t.position.described()
}

/// The views of a list of tokens, in order.
pub open spec fn token_views(tokens: Seq<Token>) -> Seq<TokenView> {
    tokens.map_values(|t: Token| t@)
}

/// Adding a token to a list adds its view to the list's views.
pub proof fn lemma_token_views_push(tokens: Seq<Token>, t: Token)
    ensures
        token_views(tokens.push(t)) == token_views(tokens).push(t@),
{
    assert(token_views(tokens.push(t)) =~= token_views(tokens).push(t@));
}

impl Token {
    /// A token of kind `token_type`. A `length` that does not fit in 32 bits
    /// is cut down to its low 32 bits.
    pub fn new(
        token_type: TokenType,
        is_at_line_start: bool,
        has_whitespace: bool,
        lexeme: String,
        literal: Option<String>,
        position: Position,
        length: usize,
    ) -> (t: Self)
        ensures
            t.token_type == token_type,
            t.lexeme == lexeme,
            t.literal == literal,
            t.position == position,
            t.length == length as u32,
            t.flags == TokenFlags::of(is_at_line_start, has_whitespace),
    {
        let mut flags = TokenFlags::empty();
        if is_at_line_start {
            flags.insert(TokenFlags { bits: AT_LINE_START });
        }
        if has_whitespace {
            flags.insert(TokenFlags { bits: HAS_PRECEDING_WHITESPACE });
        }
        assert(0u8 | 1u8 == 1u8 && 0u8 | 2u8 == 2u8 && 1u8 | 2u8 == 3u8) by (bit_vector);
        Self {
            token_type,
            lexeme,
            literal,
            position,
            length: #[verifier::truncate]
            (length as u32),
            flags,
        }
    }

    /// The token that ends every stream.
    pub fn eof(position: Position) -> (t: Self)
        ensures
            t@ == (TokenView {
                lexeme: Seq::<char>::empty(),
                literal: None,
                position,
                token_type: TokenType::EOF,
                length: 0,
                flags: TokenFlags::of(false, false),
            }),
    {
        Self {
            token_type: TokenType::EOF,
            lexeme: String::new(),
            literal: None,
            position,
            length: 0,
            flags: TokenFlags::empty(),
        }
    }

    /// A placeholder token that carries `message` as its text.
    pub fn error(message: String, position: Position) -> (t: Self)
        ensures
            t.lexeme == message,
            t.literal.is_none(),
            t.position == position,
            t.token_type == TokenType::Error,
            t.length == 0,
            t.flags == TokenFlags::of(false, false),
    {
        Self {
            token_type: TokenType::Error,
            lexeme: message,
            literal: None,
            position,
            length: 0,
            flags: TokenFlags::empty(),
        }
    }

    /// The token in words, for a reader.
    pub fn describe(&self) -> (text: String)
        ensures
            text@ == described(self@),
    {
        let mut text = String::new();
        text.append("[");
        text.append(self.token_type.as_str());
        if self.flags.contains(TokenFlags { bits: AT_LINE_START }) {
            text.append(" [SOL]");
        }
        if self.flags.contains(TokenFlags { bits: HAS_PRECEDING_WHITESPACE }) {
            text.append(" [WS]");
        }
        assert(text@ =~= "["@ + self.token_type.name() + markers(self.flags));
        text.append("] '");
        text.append(self.lexeme.as_str());
        text.append("'");
        match &self.literal {
            Some(l) => {
                text.append(" (value: ");
                text.append(l.as_str());
                text.append(")");
            },
            None => {},
        }
        assert(text@ =~= "["@ + self.token_type.name() + markers(self.flags) + "] '"@
            + self.lexeme@ + "'"@ + literal_note(self@.literal));
        text.append(" at ");
        let place = self.position.describe();
        text.append(place.as_str());
        assert(text@ =~= described(self@));
        text
    }
}

} // verus!
