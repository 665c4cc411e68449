use vstd::prelude::*;

verus! {

/// The kind of a token.
#[derive(Debug, Clone, Copy, PartialEq, Eq, Structural)]
pub enum TokenType {
    // Layout of the stream.
    BOF,
    EOF,
    Newline,
    Indent,
    Dedent,
    /// Blank space that stands for an assignment between a key and its value.
    Whitespace,
    /// Placeholder that keeps the place of text no rule accepted.
    Error,
    // Names and literals.
    Identifier,
    Number,
    String,
    SingleQuotedString,
    GraveQuotedString,
    MultilineString,
    /// `${`, the opener of an interpolated expression.
    DollarLeftBrace,
    // Numbers with a unit.
    UnitPercent,
    UnitFrequency,
    UnitSize,
    UnitDegree,
    UnitLength,
    UnitTime,
    UnitDimension,
    UnitWeight,
    UnitSpeed,
    UnitTemperature,
    UnitElectricVoltage,
    UnitElectricCurrent,
    UnitElectricCharge,
    UnitElectricResistance,
    UnitElectricConductance,
    UnitElectricCapacitance,
    UnitElectricPower,
    UnitPressure,
    UnitEnergy,
    // Brackets.
    LeftParen,
    RightParen,
    LeftBracket,
    RightBracket,
    LeftBrace,
    RightBrace,
    // Operators and punctuation.
    Plus,
    Minus,
    Star,
    Slash,
    Percent,
    Caret,
    Tilde,
    Equal,
    EqualEqual,
    Bang,
    BangEqual,
    Less,
    LessEqual,
    Greater,
    GreaterEqual,
    Ampersand,
    AndAnd,
    Pipe,
    OrOr,
    Arrow,
    FatArrow,
    PlusEqual,
    MinusEqual,
    StarEqual,
    SlashEqual,
    Dot,
    DotDot,
    Ellipsis,
    Comma,
    Colon,
    ColonColon,
    Semicolon,
    Question,
    At,
    Hash,
    Dollar,
    Backslash,
    // Comments: recognised, never part of the stream.
    LineComment,
    BlockComment,
    // Reserved words.
    Let,
    Const,
    Global,
    Local,
    Public,
    Private,
    If,
    Elif,
    Else,
    For,
    In,
    While,
    Return,
    Break,
    Continue,
    Fn,
    True,
    False,
    Null,
    And,
    Or,
    Not,
    Import,
    Export,
}

impl TokenType {
    /// The kinds that frame the stream and its blocks: they come from the
    /// scanner's bookkeeping, never from a table of spellings.
    pub open spec fn is_layout(self) -> bool {
        self == TokenType::BOF || self == TokenType::EOF || self == TokenType::Indent || self
            == TokenType::Dedent
    }

    /// The kinds of token that carry a value: strings, numbers, and numbers
    /// with a unit.
    pub open spec fn carries_literal(self) -> bool {
        self.is_string() || self.is_unit() || self == TokenType::Number
    }

    /// The four kinds of string literal.
    pub open spec fn spec_is_string(self) -> bool {
        self == TokenType::String || self == TokenType::SingleQuotedString || self
            == TokenType::GraveQuotedString || self == TokenType::MultilineString
    }

    /// The kinds of a number that carries a unit.
    pub open spec fn spec_is_unit(self) -> bool {
        self == TokenType::UnitPercent || self == TokenType::UnitFrequency || self
            == TokenType::UnitSize || self == TokenType::UnitDegree || self
            == TokenType::UnitLength || self == TokenType::UnitTime || self
            == TokenType::UnitDimension || self == TokenType::UnitWeight || self
            == TokenType::UnitSpeed || self == TokenType::UnitTemperature || self
            == TokenType::UnitElectricVoltage || self == TokenType::UnitElectricCurrent || self
            == TokenType::UnitElectricCharge || self == TokenType::UnitElectricResistance || self
            == TokenType::UnitElectricConductance || self == TokenType::UnitElectricCapacitance
            || self == TokenType::UnitElectricPower || self == TokenType::UnitPressure || self
            == TokenType::UnitEnergy
    }

    /// The kinds after which blank space may stand for an assignment: those
    /// that can end the left-hand side of a key and value pair.
    pub open spec fn spec_ends_left_hand_side(self) -> bool {
        self == TokenType::Identifier || self == TokenType::RightParen || self
            == TokenType::RightBracket || self == TokenType::RightBrace || self
            == TokenType::Number || self.is_unit() || self.is_string()
    }

    /// Whether the kind is one of the four kinds of string literal.
    #[verifier::when_used_as_spec(spec_is_string)]
    pub fn is_string(self) -> (b: bool)
        ensures
            b == self.spec_is_string(),
    {
        match self {
            TokenType::String
            | TokenType::SingleQuotedString
            | TokenType::GraveQuotedString
            | TokenType::MultilineString => true,
            _ => false,
        }
    }

    /// Whether the kind is that of a number that carries a unit.
    #[verifier::when_used_as_spec(spec_is_unit)]
    pub fn is_unit(self) -> (b: bool)
        ensures
            b == self.spec_is_unit(),
    {
        match self {
            TokenType::UnitPercent
            | TokenType::UnitFrequency
            | TokenType::UnitSize
            | TokenType::UnitDegree
            | TokenType::UnitLength
            | TokenType::UnitTime
            | TokenType::UnitDimension
            | TokenType::UnitWeight
            | TokenType::UnitSpeed
            | TokenType::UnitTemperature
            | TokenType::UnitElectricVoltage
            | TokenType::UnitElectricCurrent
            | TokenType::UnitElectricCharge
            | TokenType::UnitElectricResistance
            | TokenType::UnitElectricConductance
            | TokenType::UnitElectricCapacitance
            | TokenType::UnitElectricPower
            | TokenType::UnitPressure
            | TokenType::UnitEnergy => true,
            _ => false,
        }
    }

    /// Whether a token of this kind can end the left-hand side of a key and
    /// value pair.
    #[verifier::when_used_as_spec(spec_ends_left_hand_side)]
    pub fn ends_left_hand_side(self) -> (b: bool)
        ensures
            b == self.spec_ends_left_hand_side(),
    {
        match self {
            TokenType::Identifier
            | TokenType::RightParen
            | TokenType::RightBracket
            | TokenType::RightBrace
            | TokenType::Number => true,
            _ => self.is_unit() || self.is_string(),
        }
    }
    /// The name of the kind.
    pub open spec fn name(self) -> Seq<char> {
        match self {
            TokenType::BOF => "BOF"@,
            TokenType::EOF => "EOF"@,
            TokenType::Newline => "Newline"@,
            TokenType::Indent => "Indent"@,
            TokenType::Dedent => "Dedent"@,
            TokenType::Whitespace => "Whitespace"@,
            TokenType::Error => "Error"@,
            TokenType::Identifier => "Identifier"@,
            TokenType::Number => "Number"@,
            TokenType::String => "String"@,
            TokenType::SingleQuotedString => "SingleQuotedString"@,
            TokenType::GraveQuotedString => "GraveQuotedString"@,
            TokenType::MultilineString => "MultilineString"@,
            TokenType::DollarLeftBrace => "DollarLeftBrace"@,
            TokenType::UnitPercent => "UnitPercent"@,
            TokenType::UnitFrequency => "UnitFrequency"@,
            TokenType::UnitSize => "UnitSize"@,
            TokenType::UnitDegree => "UnitDegree"@,
            TokenType::UnitLength => "UnitLength"@,
            TokenType::UnitTime => "UnitTime"@,
            TokenType::UnitDimension => "UnitDimension"@,
            TokenType::UnitWeight => "UnitWeight"@,
            TokenType::UnitSpeed => "UnitSpeed"@,
            TokenType::UnitTemperature => "UnitTemperature"@,
            TokenType::UnitElectricVoltage => "UnitElectricVoltage"@,
            TokenType::UnitElectricCurrent => "UnitElectricCurrent"@,
            TokenType::UnitElectricCharge => "UnitElectricCharge"@,
            TokenType::UnitElectricResistance => "UnitElectricResistance"@,
            TokenType::UnitElectricConductance => "UnitElectricConductance"@,
            TokenType::UnitElectricCapacitance => "UnitElectricCapacitance"@,
            TokenType::UnitElectricPower => "UnitElectricPower"@,
            TokenType::UnitPressure => "UnitPressure"@,
            TokenType::UnitEnergy => "UnitEnergy"@,
            TokenType::LeftParen => "LeftParen"@,
            TokenType::RightParen => "RightParen"@,
            TokenType::LeftBracket => "LeftBracket"@,
            TokenType::RightBracket => "RightBracket"@,
            TokenType::LeftBrace => "LeftBrace"@,
            TokenType::RightBrace => "RightBrace"@,
            TokenType::Plus => "Plus"@,
            TokenType::Minus => "Minus"@,
            TokenType::Star => "Star"@,
            TokenType::Slash => "Slash"@,
            TokenType::Percent => "Percent"@,
            TokenType::Caret => "Caret"@,
            TokenType::Tilde => "Tilde"@,
            TokenType::Equal => "Equal"@,
            TokenType::EqualEqual => "EqualEqual"@,
            TokenType::Bang => "Bang"@,
            TokenType::BangEqual => "BangEqual"@,
            TokenType::Less => "Less"@,
            TokenType::LessEqual => "LessEqual"@,
            TokenType::Greater => "Greater"@,
            TokenType::GreaterEqual => "GreaterEqual"@,
            TokenType::Ampersand => "Ampersand"@,
            TokenType::AndAnd => "AndAnd"@,
            TokenType::Pipe => "Pipe"@,
            TokenType::OrOr => "OrOr"@,
            TokenType::Arrow => "Arrow"@,
            TokenType::FatArrow => "FatArrow"@,
            TokenType::PlusEqual => "PlusEqual"@,
            TokenType::MinusEqual => "MinusEqual"@,
            TokenType::StarEqual => "StarEqual"@,
            TokenType::SlashEqual => "SlashEqual"@,
            TokenType::Dot => "Dot"@,
            TokenType::DotDot => "DotDot"@,
            TokenType::Ellipsis => "Ellipsis"@,
            TokenType::Comma => "Comma"@,
            TokenType::Colon => "Colon"@,
            TokenType::ColonColon => "ColonColon"@,
            TokenType::Semicolon => "Semicolon"@,
            TokenType::Question => "Question"@,
            TokenType::At => "At"@,
            TokenType::Hash => "Hash"@,
            TokenType::Dollar => "Dollar"@,
            TokenType::Backslash => "Backslash"@,
            TokenType::LineComment => "LineComment"@,
            TokenType::BlockComment => "BlockComment"@,
            TokenType::Let => "Let"@,
            TokenType::Const => "Const"@,
            TokenType::Global => "Global"@,
            TokenType::Local => "Local"@,
            TokenType::Public => "Public"@,
            TokenType::Private => "Private"@,
            TokenType::If => "If"@,
            TokenType::Elif => "Elif"@,
            TokenType::Else => "Else"@,
            TokenType::For => "For"@,
            TokenType::In => "In"@,
            TokenType::While => "While"@,
            TokenType::Return => "Return"@,
            TokenType::Break => "Break"@,
            TokenType::Continue => "Continue"@,
            TokenType::Fn => "Fn"@,
            TokenType::True => "True"@,
            TokenType::False => "False"@,
            TokenType::Null => "Null"@,
            TokenType::And => "And"@,
            TokenType::Or => "Or"@,
            TokenType::Not => "Not"@,
            TokenType::Import => "Import"@,
            TokenType::Export => "Export"@,
        }
    }

    /// The name of the kind, as text.
    pub fn as_str(&self) -> (text: &'static str)
        ensures
            text@ == self.name(),
    {
        match self {
            TokenType::BOF => "BOF",
            TokenType::EOF => "EOF",
            TokenType::Newline => "Newline",
            TokenType::Indent => "Indent",
            TokenType::Dedent => "Dedent",
            TokenType::Whitespace => "Whitespace",
            TokenType::Error => "Error",
            TokenType::Identifier => "Identifier",
            TokenType::Number => "Number",
            TokenType::String => "String",
            TokenType::SingleQuotedString => "SingleQuotedString",
            TokenType::GraveQuotedString => "GraveQuotedString",
            TokenType::MultilineString => "MultilineString",
            TokenType::DollarLeftBrace => "DollarLeftBrace",
            TokenType::UnitPercent => "UnitPercent",
            TokenType::UnitFrequency => "UnitFrequency",
            TokenType::UnitSize => "UnitSize",
            TokenType::UnitDegree => "UnitDegree",
            TokenType::UnitLength => "UnitLength",
            TokenType::UnitTime => "UnitTime",
            TokenType::UnitDimension => "UnitDimension",
            TokenType::UnitWeight => "UnitWeight",
            TokenType::UnitSpeed => "UnitSpeed",
            TokenType::UnitTemperature => "UnitTemperature",
            TokenType::UnitElectricVoltage => "UnitElectricVoltage",
            TokenType::UnitElectricCurrent => "UnitElectricCurrent",
            TokenType::UnitElectricCharge => "UnitElectricCharge",
            TokenType::UnitElectricResistance => "UnitElectricResistance",
            TokenType::UnitElectricConductance => "UnitElectricConductance",
            TokenType::UnitElectricCapacitance => "UnitElectricCapacitance",
            TokenType::UnitElectricPower => "UnitElectricPower",
            TokenType::UnitPressure => "UnitPressure",
            TokenType::UnitEnergy => "UnitEnergy",
            TokenType::LeftParen => "LeftParen",
            TokenType::RightParen => "RightParen",
            TokenType::LeftBracket => "LeftBracket",
            TokenType::RightBracket => "RightBracket",
            TokenType::LeftBrace => "LeftBrace",
            TokenType::RightBrace => "RightBrace",
            TokenType::Plus => "Plus",
            TokenType::Minus => "Minus",
            TokenType::Star => "Star",
            TokenType::Slash => "Slash",
            TokenType::Percent => "Percent",
            TokenType::Caret => "Caret",
            TokenType::Tilde => "Tilde",
            TokenType::Equal => "Equal",
            TokenType::EqualEqual => "EqualEqual",
            TokenType::Bang => "Bang",
            TokenType::BangEqual => "BangEqual",
            TokenType::Less => "Less",
            TokenType::LessEqual => "LessEqual",
            TokenType::Greater => "Greater",
            TokenType::GreaterEqual => "GreaterEqual",
            TokenType::Ampersand => "Ampersand",
            TokenType::AndAnd => "AndAnd",
            TokenType::Pipe => "Pipe",
            TokenType::OrOr => "OrOr",
            TokenType::Arrow => "Arrow",
            TokenType::FatArrow => "FatArrow",
            TokenType::PlusEqual => "PlusEqual",
            TokenType::MinusEqual => "MinusEqual",
            TokenType::StarEqual => "StarEqual",
            TokenType::SlashEqual => "SlashEqual",
            TokenType::Dot => "Dot",
            TokenType::DotDot => "DotDot",
            TokenType::Ellipsis => "Ellipsis",
            TokenType::Comma => "Comma",
            TokenType::Colon => "Colon",
            TokenType::ColonColon => "ColonColon",
            TokenType::Semicolon => "Semicolon",
            TokenType::Question => "Question",
            TokenType::At => "At",
            TokenType::Hash => "Hash",
            TokenType::Dollar => "Dollar",
            TokenType::Backslash => "Backslash",
            TokenType::LineComment => "LineComment",
            TokenType::BlockComment => "BlockComment",
            TokenType::Let => "Let",
            TokenType::Const => "Const",
            TokenType::Global => "Global",
            TokenType::Local => "Local",
            TokenType::Public => "Public",
            TokenType::Private => "Private",
            TokenType::If => "If",
            TokenType::Elif => "Elif",
            TokenType::Else => "Else",
            TokenType::For => "For",
            TokenType::In => "In",
            TokenType::While => "While",
            TokenType::Return => "Return",
            TokenType::Break => "Break",
            TokenType::Continue => "Continue",
            TokenType::Fn => "Fn",
            TokenType::True => "True",
            TokenType::False => "False",
            TokenType::Null => "Null",
            TokenType::And => "And",
            TokenType::Or => "Or",
            TokenType::Not => "Not",
            TokenType::Import => "Import",
            TokenType::Export => "Export",
        }
    }
}

} // verus!
