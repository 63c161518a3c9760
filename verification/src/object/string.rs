//! The PDF string objects: literal strings built from characters and
//! escape sequences, and hexadecimal strings built from digit pairs.

use vstd::prelude::*;

use crate::ascii::{LEFT_ANGLE, LEFT_PAREN, RIGHT_ANGLE, RIGHT_PAREN};
use crate::value::{spec_literal_char_bytes, HexadecimalChar, LiteralChar};

verus! {

/// PDF Literal String representation.
#[derive(Debug, Clone)]
pub struct LiteralString {
    /// The characters comprising the Literal String.
    chars: Vec<LiteralChar>,
}

/// The rendering of a run of literal string characters.
pub open spec fn spec_literal_chars_bytes(s: Seq<LiteralChar>) -> Seq<u8>
    decreases s.len(),
{
    if s.len() == 0 {
        Seq::empty()
    } else {
        spec_literal_chars_bytes(s.drop_last()) + spec_literal_char_bytes(s.last())
    }
}

/// The byte rendering of a literal string: its characters between
/// parentheses.
pub open spec fn spec_literal_string_bytes(s: LiteralString) -> Seq<u8> {
    seq![LEFT_PAREN] + spec_literal_chars_bytes(s@) + seq![RIGHT_PAREN]
}

impl View for LiteralString {
    type V = Seq<LiteralChar>;

    closed spec fn view(&self) -> Seq<LiteralChar> {
        self.chars@
    }
}

impl LiteralString {
    /// Creates a new `LiteralString` from the given characters.
    pub fn new(chars: Vec<LiteralChar>) -> (r: Self)
        ensures
            r@ == chars@,
    {
        Self { chars }
    }

    /// Returns the characters of the Literal String.
    pub fn chars(&self) -> (r: &Vec<LiteralChar>)
        ensures
            r@ == self@,
    {
        &self.chars
    }

    /// Returns the byte rendering: the characters between parentheses.
    pub fn as_bytes(&self) -> (r: Vec<u8>)
        ensures
            r@ == spec_literal_string_bytes(*self),
    {
        let mut out: Vec<u8> = Vec::new();
        out.push(LEFT_PAREN);
        for i in 0..self.chars.len()
            invariant
                out@ =~= seq![LEFT_PAREN] + spec_literal_chars_bytes(self@.take(i as int)),
        {
            let mut piece = self.chars[i].as_bytes();
            out.append(&mut piece);
            proof {
                assert(self@.take(i + 1).drop_last() =~= self@.take(i as int));
                assert(out@ =~= seq![LEFT_PAREN] + spec_literal_chars_bytes(self@.take(i + 1)));
            }
        }
        out.push(RIGHT_PAREN);
        proof {
            assert(self@.take(self@.len() as int) =~= self@);
            assert(out@ =~= spec_literal_string_bytes(*self));
        }
        out
    }
}

/// PDF Hexadecimal String representation.
#[derive(Debug, Clone)]
pub struct HexadecimalString {
    /// The hexadecimal characters comprising the string.
    chars: Vec<HexadecimalChar>,
}

/// The rendering of a run of hexadecimal digit pairs.
pub open spec fn spec_hexadecimal_chars_bytes(s: Seq<HexadecimalChar>) -> Seq<u8>
    decreases s.len(),
{
    if s.len() == 0 {
        Seq::empty()
    } else {
        spec_hexadecimal_chars_bytes(s.drop_last()) + s.last()@
    }
}

/// The byte rendering of a hexadecimal string: its digit pairs between
/// angle brackets.
pub open spec fn spec_hexadecimal_string_bytes(s: HexadecimalString) -> Seq<u8> {
    seq![LEFT_ANGLE] + spec_hexadecimal_chars_bytes(s@) + seq![RIGHT_ANGLE]
}

impl View for HexadecimalString {
    type V = Seq<HexadecimalChar>;

    closed spec fn view(&self) -> Seq<HexadecimalChar> {
        self.chars@
    }
}

impl HexadecimalString {
    /// Creates a new `HexadecimalString` from the given digit pairs.
    pub fn new(chars: Vec<HexadecimalChar>) -> (r: Self)
        ensures
            r@ == chars@,
    {
        Self { chars }
    }

    /// Returns the characters of the Hexadecimal String.
    pub fn chars(&self) -> (r: &Vec<HexadecimalChar>)
        ensures
            r@ == self@,
    {
        &self.chars
    }

    /// Returns the byte rendering: the digit pairs between angle brackets.
    pub fn as_bytes(&self) -> (r: Vec<u8>)
        ensures
            r@ == spec_hexadecimal_string_bytes(*self),
    {
        let mut out: Vec<u8> = Vec::new();
        out.push(LEFT_ANGLE);
        for i in 0..self.chars.len()
            invariant
                out@ =~= seq![LEFT_ANGLE] + spec_hexadecimal_chars_bytes(self@.take(i as int)),
        {
            let mut piece = self.chars[i].as_bytes();
            out.append(&mut piece);
            proof {
                assert(self@.take(i + 1).drop_last() =~= self@.take(i as int));
                assert(out@ =~= seq![LEFT_ANGLE] + spec_hexadecimal_chars_bytes(
                    self@.take(i + 1),
                ));
            }
        }
        out.push(RIGHT_ANGLE);
        proof {
            assert(self@.take(self@.len() as int) =~= self@);
            assert(out@ =~= spec_hexadecimal_string_bytes(*self));
        }
        out
    }
}

} // verus!
