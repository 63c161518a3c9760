//! The PDF Name object: a non-empty logical string. Equality compares the
//! unescaped value; serialization prefixes a solidus and escapes every
//! reserved byte as `#` followed by two uppercase hex digits.

use vstd::prelude::*;

use crate::ascii::{DIGIT_0, LEFT_ANGLE, LEFT_CURLY, LEFT_PAREN, LEFT_SQUARE, NUMBER_SIGN,
    PERCENT, RIGHT_ANGLE, RIGHT_CURLY, RIGHT_PAREN, RIGHT_SQUARE, SOLIDUS, UPPER_A};
use crate::error::PdfError;
use crate::render::hex_pair;
use vstd::utf8::encode_utf8;

verus! {

/// Whether serialization must escape this byte of a name: the delimiter
/// and escape characters, controls and space, and everything past `0x7E`.
pub open spec fn is_reserved_name_byte(b: u8) -> bool {
    ||| b == NUMBER_SIGN
    ||| b == SOLIDUS
    ||| b == LEFT_PAREN
    ||| b == RIGHT_PAREN
    ||| b == LEFT_ANGLE
    ||| b == RIGHT_ANGLE
    ||| b == LEFT_SQUARE
    ||| b == RIGHT_SQUARE
    ||| b == LEFT_CURLY
    ||| b == RIGHT_CURLY
    ||| b == PERCENT
    ||| b <= 0x20
    ||| b >= 0x7F
}

/// One byte of a name as serialization renders it: itself, or `#` and
/// two uppercase hex digits when reserved.
pub open spec fn spec_escape_byte(b: u8) -> Seq<u8> {
    if is_reserved_name_byte(b) {
        seq![NUMBER_SIGN] + hex_pair(b)
    } else {
        seq![b]
    }
}

/// A run of name bytes with every reserved byte escaped.
pub open spec fn spec_escaped(s: Seq<u8>) -> Seq<u8>
    decreases s.len(),
{
    if s.len() == 0 {
        Seq::empty()
    } else {
        spec_escaped(s.drop_last()) + spec_escape_byte(s.last())
    }
}

/// PDF Name object representation.
#[derive(Debug)]
pub struct Name {
    value: String,
}

impl Name {
    /// Every constructed Name has a non-empty logical value.
    #[verifier::type_invariant]
    spec fn non_empty(self) -> bool {
        self@.len() > 0
    }
}

/// The byte rendering of a name with the given logical value: a solidus,
/// then its UTF-8 bytes with every reserved byte escaped.
pub open spec fn spec_escaped_name_of(value: Seq<char>) -> Seq<u8> {
    seq![SOLIDUS] + spec_escaped(encode_utf8(value))
}

/// The byte rendering of a Name.
pub open spec fn spec_name_bytes(n: Name) -> Seq<u8> {
    spec_escaped_name_of(n@)
}

/// Creates a Name from a key the call site knows to be non-empty.
pub(crate) fn literal_name(name: &str) -> (r: Name)
    requires
        name@.len() > 0,
    ensures
        r@ == name@,
{
    match Name::new(name) {
        Ok(n) => n,
        Err(_) => vstd::pervasive::unreached(),
    }
}

impl Clone for Name {
    /// Clones the Name, keeping its logical value.
    fn clone(&self) -> (r: Self)
        ensures
            r@ == self@,
    {
        proof {
            use_type_invariant(self);
        }
        Self { value: self.value.clone() }
    }
}

impl View for Name {
    type V = Seq<char>;

    closed spec fn view(&self) -> Seq<char> {
        self.value@
    }
}

impl PartialEq for Name {
    /// Names are equal when their unescaped logical values are.
    fn eq(&self, other: &Self) -> (r: bool) {
        self.value == other.value
    }
}

impl vstd::std_specs::cmp::PartialEqSpecImpl for Name {
    open spec fn obeys_eq_spec() -> bool {
        true
    }

    open spec fn eq_spec(&self, other: &Name) -> bool {
        self@ == other@
    }
}

impl Name {
    /// Creates a new `Name` from the given logical value, which must be
    /// non-empty.
    pub fn new(name: &str) -> (r: Result<Self, PdfError>)
        ensures
            r.is_ok() <==> name@.len() > 0,
            r.is_ok() ==> r.unwrap()@ == name@,
            name@.len() == 0 ==> r == Result::<Self, PdfError>::Err(PdfError::EmptyName),
    {
        if name.is_empty() {
            Err(PdfError::EmptyName)
        } else {
            Ok(Self { value: name.to_owned() })
        }
    }

    /// Returns the logical value of the Name.
    pub fn as_str(&self) -> (r: &str)
        ensures
            r@ == self@,
    {
        self.value.as_str()
    }

    /// Returns the byte rendering: a solidus, then the value with every
    /// reserved byte escaped as `#` and two uppercase hex digits.
    pub fn as_bytes(&self) -> (r: Vec<u8>)
        ensures
            r@ == spec_name_bytes(*self),
    {
        let bs: &[u8] = self.value.as_str().as_bytes();
        let mut out: Vec<u8> = Vec::new();
        out.push(SOLIDUS);
        for i in 0..bs.len()
            invariant
                out@ =~= seq![SOLIDUS] + spec_escaped(bs@.take(i as int)),
        {
            let b = bs[i];
            if b == NUMBER_SIGN || b == SOLIDUS || b == LEFT_PAREN || b == RIGHT_PAREN || b
                == LEFT_ANGLE || b == RIGHT_ANGLE || b == LEFT_SQUARE || b == RIGHT_SQUARE || b
                == LEFT_CURLY || b == RIGHT_CURLY || b == PERCENT || b <= 0x20 || b >= 0x7F {
                out.push(NUMBER_SIGN);
                let hi: u8 = b / 16;
                let lo: u8 = b % 16;
                if hi < 10 {
                    out.push(DIGIT_0 + hi);
                } else {
                    out.push(UPPER_A + (hi - 10));
                }
                if lo < 10 {
                    out.push(DIGIT_0 + lo);
                } else {
                    out.push(UPPER_A + (lo - 10));
                }
            } else {
                out.push(b);
            }
            proof {
                assert(bs@.take(i + 1).drop_last() =~= bs@.take(i as int));
                assert(out@ =~= seq![SOLIDUS] + spec_escaped(bs@.take(i + 1)));
            }
        }
        proof {
            assert(bs@.take(bs@.len() as int) =~= bs@);
        }
        out
    }
}

} // verus!
