//! Characters of PDF string objects: plain ASCII characters, the escape
//! sequences of literal strings, and the digit pairs of hexadecimal
//! strings.

use vstd::prelude::*;

use crate::ascii::{BACKSLASH, LINE_FEED, LOWER_B, LOWER_F, LOWER_N, LOWER_R, LOWER_T, LEFT_PAREN,
    RIGHT_PAREN};
use crate::error::PdfError;
use crate::render::{spec_decimal_padded, u64_to_decimal_padded};
use crate::specification::is_hex_digit;

verus! {

/// PDF ASCII character representation: one byte standing for itself
/// inside a literal string.
#[derive(Debug, Clone, Copy, PartialEq, Eq, Structural)]
pub struct Ascii(u8);

impl View for Ascii {
    type V = u8;

    closed spec fn view(&self) -> u8 {
        self.0
    }
}

impl Ascii {
    /// Creates a new `Ascii` from the given byte.
    pub fn new(byte: u8) -> (r: Self)
        ensures
            r@ == byte,
    {
        Self(byte)
    }

    /// Returns the character byte.
    pub fn as_byte(&self) -> (r: u8)
        ensures
            r == self@,
    {
        self.0
    }
}

/// PDF escaped character code representation: a code between 0 and 255,
/// rendered as a backslash and three decimal digits.
#[derive(Debug, Clone, Copy, PartialEq, Eq, Structural)]
pub struct CharacterCode(u8);

impl View for CharacterCode {
    type V = u8;

    closed spec fn view(&self) -> u8 {
        self.0
    }
}

impl CharacterCode {
    /// Creates a new `CharacterCode` from the given byte.
    pub fn new(code: u8) -> (r: Self)
        ensures
            r@ == code,
    {
        Self(code)
    }

    /// Returns the character byte.
    pub fn as_byte(&self) -> (r: u8)
        ensures
            r == self@,
    {
        self.0
    }
}

/// PDF escape sequence representation.
#[derive(Debug, Clone, Copy, PartialEq, Eq, Structural)]
pub enum EscapeSequence {
    /// Line feed escape sequence (`\n`).
    LineFeed,
    /// Carriage return escape sequence (`\r`).
    CarriageReturn,
    /// Tab escape sequence (`\t`).
    Tab,
    /// Backspace escape sequence (`\b`).
    Backspace,
    /// Form feed escape sequence (`\f`).
    FormFeed,
    /// Parenthesis left escape sequence (`\(`).
    LeftParenthesis,
    /// Parenthesis right escape sequence (`\)`).
    RightParenthesis,
    /// Backslash escape sequence (`\\`).
    Backslash,
    /// Character code escape sequence (`\ddd`).
    CharacterCode(CharacterCode),
    /// Backslash only escape sequence (`\`).
    Empty,
    /// End of line escape sequence: a line break written inside the
    /// string, rendered as a bare line feed.
    EndOfLine,
}

/// The byte rendering of an escape sequence.
pub open spec fn spec_escape_sequence_bytes(e: EscapeSequence) -> Seq<u8> {
    match e {
        EscapeSequence::LineFeed => seq![BACKSLASH, LOWER_N],
        EscapeSequence::CarriageReturn => seq![BACKSLASH, LOWER_R],
        EscapeSequence::Tab => seq![BACKSLASH, LOWER_T],
        EscapeSequence::Backspace => seq![BACKSLASH, LOWER_B],
        EscapeSequence::FormFeed => seq![BACKSLASH, LOWER_F],
        EscapeSequence::LeftParenthesis => seq![BACKSLASH, LEFT_PAREN],
        EscapeSequence::RightParenthesis => seq![BACKSLASH, RIGHT_PAREN],
        EscapeSequence::Backslash => seq![BACKSLASH, BACKSLASH],
        EscapeSequence::CharacterCode(c) => seq![BACKSLASH] + spec_decimal_padded(c@ as nat, 3),
        EscapeSequence::Empty => seq![BACKSLASH],
        EscapeSequence::EndOfLine => seq![LINE_FEED],
    }
}

impl EscapeSequence {
    /// Returns the byte rendering of the escape sequence.
    pub fn as_bytes(&self) -> (r: Vec<u8>)
        ensures
            r@ == spec_escape_sequence_bytes(*self),
    {
        let mut r: Vec<u8> = Vec::new();
        match self {
            EscapeSequence::LineFeed => {
                r.push(BACKSLASH);
                r.push(LOWER_N);
            },
            EscapeSequence::CarriageReturn => {
                r.push(BACKSLASH);
                r.push(LOWER_R);
            },
            EscapeSequence::Tab => {
                r.push(BACKSLASH);
                r.push(LOWER_T);
            },
            EscapeSequence::Backspace => {
                r.push(BACKSLASH);
                r.push(LOWER_B);
            },
            EscapeSequence::FormFeed => {
                r.push(BACKSLASH);
                r.push(LOWER_F);
            },
            EscapeSequence::LeftParenthesis => {
                r.push(BACKSLASH);
                r.push(LEFT_PAREN);
            },
            EscapeSequence::RightParenthesis => {
                r.push(BACKSLASH);
                r.push(RIGHT_PAREN);
            },
            EscapeSequence::Backslash => {
                r.push(BACKSLASH);
                r.push(BACKSLASH);
            },
            EscapeSequence::CharacterCode(c) => {
                r.push(BACKSLASH);
                let mut digits = u64_to_decimal_padded(c.as_byte() as u64, 3);
                r.append(&mut digits);
            },
            EscapeSequence::Empty => {
                r.push(BACKSLASH);
            },
            EscapeSequence::EndOfLine => {
                r.push(LINE_FEED);
            },
        }
        proof {
            assert(r@ =~= spec_escape_sequence_bytes(*self));
        }
        r
    }
}

/// PDF literal string character representation.
#[derive(Debug, Clone, Copy, PartialEq, Eq, Structural)]
pub enum LiteralChar {
    /// PDF ASCII character representation.
    Ascii(Ascii),
    /// PDF escape sequence character representation.
    EscapeSequence(EscapeSequence),
}

/// The byte rendering of one literal string character.
pub open spec fn spec_literal_char_bytes(c: LiteralChar) -> Seq<u8> {
    match c {
        LiteralChar::Ascii(a) => seq![a@],
        LiteralChar::EscapeSequence(e) => spec_escape_sequence_bytes(e),
    }
}

impl LiteralChar {
    /// Returns the byte rendering of the character.
    pub fn as_bytes(&self) -> (r: Vec<u8>)
        ensures
            r@ == spec_literal_char_bytes(*self),
    {
        match self {
            LiteralChar::Ascii(a) => {
                let mut r: Vec<u8> = Vec::new();
                r.push(a.as_byte());
                proof {
                    assert(r@ =~= spec_literal_char_bytes(*self));
                }
                r
            },
            LiteralChar::EscapeSequence(e) => e.as_bytes(),
        }
    }
}

/// PDF hexadecimal string character representation: one pair of ASCII
/// hex digits standing for one byte.
#[derive(Debug, Clone, Copy, PartialEq, Eq, Structural)]
pub struct HexadecimalChar {
    high: u8,
    low: u8,
}

impl View for HexadecimalChar {
    type V = Seq<u8>;

    closed spec fn view(&self) -> Seq<u8> {
        seq![self.high, self.low]
    }
}

impl HexadecimalChar {
    /// Creates a new `HexadecimalChar` from a pair of ASCII hex digits.
    pub fn new(pair: &[u8; 2]) -> (r: Result<Self, PdfError>)
        ensures
            r.is_ok() <==> is_hex_digit(pair@[0]) && is_hex_digit(pair@[1]),
            r.is_ok() ==> r.unwrap()@ == pair@,
            !(is_hex_digit(pair@[0]) && is_hex_digit(pair@[1])) ==> r == Result::<
                Self,
                PdfError,
            >::Err(PdfError::InvalidHexDigit),
    {
        let high = pair[0];
        let low = pair[1];
        if (0x30 <= high && high <= 0x39) || (0x41 <= high && high <= 0x46) || (0x61 <= high
            && high <= 0x66) {
            if (0x30 <= low && low <= 0x39) || (0x41 <= low && low <= 0x46) || (0x61 <= low && low
                <= 0x66) {
                let r = Self { high, low };
                proof {
                    assert(r@ =~= pair@);
                }
                return Ok(r);
            }
        }
        Err(PdfError::InvalidHexDigit)
    }

    /// Returns the two digit bytes, high nibble first.
    pub fn as_bytes(&self) -> (r: Vec<u8>)
        ensures
            r@ == self@,
    {
        let mut r: Vec<u8> = Vec::new();
        r.push(self.high);
        r.push(self.low);
        proof {
            assert(r@ =~= self@);
        }
        r
    }
}

} // verus!
