//! The PDF Integer object: the validated text of an integer literal,
//! kept verbatim for byte-exact round-trips, with its numeric value
//! derived on demand.

use vstd::prelude::*;

use crate::ascii::{DIGIT_0, MINUS, PLUS};
use crate::error::PdfError;
use crate::specification::{is_integer_literal, numeric_body, validate_integer_bytes};

verus! {

/// The numeric value of a run of ASCII decimal digits, most significant
/// first.
pub open spec fn digits_value(s: Seq<u8>) -> int
    decreases s.len(),
{
    if s.len() == 0 {
        0
    } else {
        digits_value(s.drop_last()) * 10 + (s.last() - DIGIT_0)
    }
}

/// The signed numeric value of an Integer literal.
pub open spec fn int_value(s: Seq<u8>) -> int
    recommends
        is_integer_literal(s),
{
    if s.len() > 0 && s[0] == MINUS {
        -digits_value(numeric_body(s))
    } else {
        digits_value(numeric_body(s))
    }
}

/// A run of digits has a value at least zero.
pub proof fn lemma_digits_value_nonneg(s: Seq<u8>)
    requires
        forall|i: int| 0 <= i < s.len() ==> crate::specification::is_digit(#[trigger] s[i]),
    ensures
        digits_value(s) >= 0,
    decreases s.len(),
{
    if s.len() > 0 {
        lemma_digits_value_nonneg(s.drop_last());
    }
}

/// Reading one more digit multiplies the value by ten and adds the digit;
/// the value of a prefix therefore never exceeds the value of the whole.
pub proof fn lemma_digits_value_take_step(s: Seq<u8>, i: int)
    requires
        0 <= i < s.len(),
    ensures
        digits_value(s.take(i + 1)) == digits_value(s.take(i)) * 10 + (s[i] - DIGIT_0),
{
    assert(s.take(i + 1).drop_last() =~= s.take(i));
}

/// Over an all-digit run, the value of a prefix is at most the value of
/// the whole run.
pub proof fn lemma_digits_value_take_le(s: Seq<u8>, i: int)
    requires
        0 <= i <= s.len(),
        forall|j: int| 0 <= j < s.len() ==> crate::specification::is_digit(#[trigger] s[j]),
    ensures
        digits_value(s.take(i)) <= digits_value(s),
    decreases s.len() - i,
{
    if i < s.len() {
        lemma_digits_value_take_step(s, i);
        lemma_digits_value_nonneg(s.take(i));
        lemma_digits_value_take_le(s, i + 1);
    } else {
        assert(s.take(i) =~= s);
    }
}

/// PDF Integer object representation.
#[derive(Debug)]
pub struct Integer {
    bytes: Vec<u8>,
}

impl Integer {
    /// Every constructed Integer holds a literal of the Integer grammar.
    #[verifier::type_invariant]
    spec fn grammar_holds(self) -> bool {
        is_integer_literal(self@)
    }
}

impl Clone for Integer {
    /// Clones the Integer, keeping its literal bytes.
    fn clone(&self) -> (r: Self)
        ensures
            r@ == self@,
    {
        proof {
            use_type_invariant(self);
        }
        Self { bytes: vstd::slice::slice_to_vec(self.bytes.as_slice()) }
    }
}

impl View for Integer {
    type V = Seq<u8>;

    closed spec fn view(&self) -> Seq<u8> {
        self.bytes@
    }
}

impl Integer {
    /// Creates a new `Integer` from the given literal bytes, which must
    /// match `[+-]?[0-9]+`.
    pub fn new(literal: &[u8]) -> (r: Result<Self, PdfError>)
        ensures
            r.is_ok() <==> is_integer_literal(literal@),
            r.is_ok() ==> r.unwrap()@ == literal@,
            !is_integer_literal(literal@) ==> r == Result::<Self, PdfError>::Err(
                PdfError::InvalidInteger,
            ),
    {
        match validate_integer_bytes(literal) {
            Ok(_) => Ok(Self { bytes: vstd::slice::slice_to_vec(literal) }),
            Err(e) => Err(e),
        }
    }

    /// Returns the literal bytes of the Integer.
    pub fn as_bytes(&self) -> (r: &[u8])
        ensures
            r@ == self@,
            is_integer_literal(self@),
    {
        proof {
            use_type_invariant(self);
        }
        self.bytes.as_slice()
    }

    /// The magnitude of the literal: the value of its digits, ignoring
    /// any sign.
    fn magnitude(&self) -> (m: u64)
        requires
            digits_value(numeric_body(self@)) <= 0xFFFF_FFFF,
        ensures
            m == digits_value(numeric_body(self@)),
    {
        proof {
            use_type_invariant(self);
        }
        let ghost body = numeric_body(self@);
        let start: usize = if self.bytes[0] == PLUS || self.bytes[0] == MINUS {
            1
        } else {
            0
        };
        let mut acc: u64 = 0;
        proof {
            assert(body.take(0) =~= Seq::<u8>::empty());
        }
        for i in start..self.bytes.len()
            invariant
                start <= 1,
                start == 1 <==> crate::specification::is_sign(self@[0]),
                start <= i <= self@.len(),
                is_integer_literal(self@),
                digits_value(body) <= 0xFFFF_FFFF,
                body == numeric_body(self@),
                acc == digits_value(body.take(i - start)),
                acc <= 0xFFFF_FFFF,
        {
            proof {
                assert(crate::specification::is_digit(numeric_body(self@)[i - start]));
                assert(numeric_body(self@)[i - start] == self@[i as int]);
            }
            let d: u8 = self.bytes[i] - DIGIT_0;
            proof {
                lemma_digits_value_take_step(body, i - start);
                lemma_digits_value_nonneg(body.take(i - start + 1));
                lemma_digits_value_take_le(body, i - start + 1);
            }
            acc = acc * 10 + (d as u64);
        }
        proof {
            assert(body.take(self@.len() - start) =~= body);
        }
        acc
    }

    /// Whether the value fits a u32: at least zero and within the
    /// ten-digit unsigned range.
    pub fn fits_u32(&self) -> (r: bool)
        ensures
            r == (0 <= int_value(self@) <= 0xFFFF_FFFF),
    {
        proof {
            use_type_invariant(self);
        }
        let ghost body = numeric_body(self@);
        let start: usize = if self.bytes[0] == PLUS || self.bytes[0] == MINUS {
            1
        } else {
            0
        };
        let mut acc: u64 = 0;
        proof {
            assert(body.take(0) =~= Seq::<u8>::empty());
        }
        for i in start..self.bytes.len()
            invariant
                start <= 1,
                start == 1 <==> crate::specification::is_sign(self@[0]),
                start <= i <= self@.len(),
                is_integer_literal(self@),
                body == numeric_body(self@),
                acc == digits_value(body.take(i - start)),
                acc <= 0xFFFF_FFFF,
        {
            proof {
                assert(crate::specification::is_digit(numeric_body(self@)[i - start]));
                assert(numeric_body(self@)[i - start] == self@[i as int]);
            }
            let d: u8 = self.bytes[i] - DIGIT_0;
            proof {
                lemma_digits_value_take_step(body, i - start);
                lemma_digits_value_nonneg(body.take(i - start + 1));
                lemma_digits_value_take_le(body, i - start + 1);
            }
            acc = acc * 10 + (d as u64);
            if acc > 0xFFFF_FFFF {
                proof {
                    lemma_digits_value_nonneg(body);
                }
                return false;
            }
        }
        proof {
            assert(body.take(self@.len() - start) =~= body);
            lemma_digits_value_nonneg(body);
        }
        if self.bytes[0] == MINUS && acc > 0 {
            return false;
        }
        true
    }

    /// Returns the value of the Integer as i32. The literal must name a
    /// value the type can hold.
    pub fn as_i32(&self) -> (r: i32)
        requires
            -0x8000_0000 <= int_value(self@) <= 0x7FFF_FFFF,
        ensures
            r as int == int_value(self@),
    {
        proof {
            use_type_invariant(self);
            lemma_digits_value_nonneg(numeric_body(self@));
        }
        let m: i64 = self.magnitude() as i64;
        if self.bytes[0] == MINUS {
            (-m) as i32
        } else {
            m as i32
        }
    }

    /// Returns the value of the Integer as u32. The literal must name a
    /// value the type can hold.
    pub fn as_u32(&self) -> (r: u32)
        requires
            0 <= int_value(self@) <= 0xFFFF_FFFF,
        ensures
            r as int == int_value(self@),
    {
        proof {
            use_type_invariant(self);
            lemma_digits_value_nonneg(numeric_body(self@));
        }
        let m: u64 = self.magnitude();
        m as u32
    }
}

} // verus!
