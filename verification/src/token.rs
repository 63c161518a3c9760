//! The lexical character classes of the PDF grammar: delimiters and
//! whitespace.

use vstd::prelude::*;

use crate::ascii::{CARRIAGE_RETURN, FORM_FEED, LEFT_ANGLE, LEFT_CURLY, LEFT_PAREN, LEFT_SQUARE,
    LINE_FEED, NULL_CHAR, PERCENT, RIGHT_ANGLE, RIGHT_CURLY, RIGHT_PAREN, RIGHT_SQUARE, SOLIDUS,
    SPACE, TAB};

verus! {

/// PDF Delimiter characters.
#[derive(Debug, Clone, Copy, PartialEq, Eq, Structural)]
pub enum Delimiter {
    /// Indicates the start of a PDF string: `(`.
    LeftParen,
    /// Indicates the end of a PDF string: `)`.
    RightParen,
    /// Indicates the start of a PDF hexadecimal string: `<`.
    LeftAngle,
    /// Indicates the end of a PDF hexadecimal string: `>`.
    RightAngle,
    /// Indicates the start of an `Array`: `[`.
    LeftSquare,
    /// Indicates the end of an `Array`: `]`.
    RightSquare,
    /// Indicates no special structure: `{`.
    LeftCurlyBracket,
    /// Indicates no special structure: `}`.
    RightCurlyBracket,
    /// Indicates the start of a Name object: `/`.
    Solidus,
    /// Indicates the start of a comment: `%`.
    PercentSign,
}

/// The byte of each delimiter.
pub open spec fn spec_delimiter_byte(d: Delimiter) -> u8 {
    match d {
        Delimiter::LeftParen => LEFT_PAREN,
        Delimiter::RightParen => RIGHT_PAREN,
        Delimiter::LeftAngle => LEFT_ANGLE,
        Delimiter::RightAngle => RIGHT_ANGLE,
        Delimiter::LeftSquare => LEFT_SQUARE,
        Delimiter::RightSquare => RIGHT_SQUARE,
        Delimiter::LeftCurlyBracket => LEFT_CURLY,
        Delimiter::RightCurlyBracket => RIGHT_CURLY,
        Delimiter::Solidus => SOLIDUS,
        Delimiter::PercentSign => PERCENT,
    }
}

impl Delimiter {
    /// Returns the byte representation of the Delimiter.
    pub fn as_byte(&self) -> (r: u8)
        ensures
            r == spec_delimiter_byte(*self),
    {
        match self {
            Delimiter::LeftParen => LEFT_PAREN,
            Delimiter::RightParen => RIGHT_PAREN,
            Delimiter::LeftAngle => LEFT_ANGLE,
            Delimiter::RightAngle => RIGHT_ANGLE,
            Delimiter::LeftSquare => LEFT_SQUARE,
            Delimiter::RightSquare => RIGHT_SQUARE,
            Delimiter::LeftCurlyBracket => LEFT_CURLY,
            Delimiter::RightCurlyBracket => RIGHT_CURLY,
            Delimiter::Solidus => SOLIDUS,
            Delimiter::PercentSign => PERCENT,
        }
    }
}

impl PartialEq<u8> for Delimiter {
    /// A delimiter equals the byte it stands for.
    fn eq(&self, other: &u8) -> (r: bool) {
        self.as_byte() == *other
    }
}

impl vstd::std_specs::cmp::PartialEqSpecImpl<u8> for Delimiter {
    open spec fn obeys_eq_spec() -> bool {
        true
    }

    open spec fn eq_spec(&self, other: &u8) -> bool {
        spec_delimiter_byte(*self) == *other
    }
}

/// PDF Whitespace characters representation.
#[derive(Debug, Clone, Copy, PartialEq, Eq, Structural)]
pub enum Whitespace {
    /// Null character, `0x00`.
    Null,
    /// Space character, `0x20`.
    Space,
    /// Tab character, `0x09`.
    Tab,
    /// Line feed character, `0x0A`.
    LineFeed,
    /// Form feed character, `0x0C`.
    FormFeed,
    /// Carriage return character, `0x0D`.
    CarriageReturn,
}

/// The byte of each whitespace character.
pub open spec fn spec_whitespace_byte(w: Whitespace) -> u8 {
    match w {
        Whitespace::Null => NULL_CHAR,
        Whitespace::Space => SPACE,
        Whitespace::Tab => TAB,
        Whitespace::LineFeed => LINE_FEED,
        Whitespace::FormFeed => FORM_FEED,
        Whitespace::CarriageReturn => CARRIAGE_RETURN,
    }
}

impl Whitespace {
    /// Returns the byte representation of the Whitespace character.
    pub fn as_byte(&self) -> (r: u8)
        ensures
            r == spec_whitespace_byte(*self),
    {
        match self {
            Whitespace::Null => NULL_CHAR,
            Whitespace::Space => SPACE,
            Whitespace::Tab => TAB,
            Whitespace::LineFeed => LINE_FEED,
            Whitespace::FormFeed => FORM_FEED,
            Whitespace::CarriageReturn => CARRIAGE_RETURN,
        }
    }
}

impl PartialEq<u8> for Whitespace {
    /// A whitespace class equals the byte it stands for.
    fn eq(&self, other: &u8) -> (r: bool) {
        self.as_byte() == *other
    }
}

impl vstd::std_specs::cmp::PartialEqSpecImpl<u8> for Whitespace {
    open spec fn obeys_eq_spec() -> bool {
        true
    }

    open spec fn eq_spec(&self, other: &u8) -> bool {
        spec_whitespace_byte(*self) == *other
    }
}

} // verus!
