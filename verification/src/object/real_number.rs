//! The PDF Real object: the validated text of a real-number literal,
//! kept verbatim so that re-emitting it never drifts in precision.

use vstd::prelude::*;

use crate::error::PdfError;
use crate::specification::{is_real_literal, validate_real_number_bytes};

verus! {

/// A PDF Real object representation.
#[derive(Debug)]
pub struct Real {
    bytes: Vec<u8>,
}

impl Real {
    /// Every constructed Real holds a literal of the Real grammar.
    #[verifier::type_invariant]
    spec fn grammar_holds(self) -> bool {
        is_real_literal(self@)
    }
}

impl Clone for Real {
    /// Clones the Real, keeping its literal bytes.
    fn clone(&self) -> (r: Self)
        ensures
            r@ == self@,
    {
        proof {
            use_type_invariant(self);
        }
        Self { bytes: vstd::slice::slice_to_vec(self.bytes.as_slice()) }
    }
}

impl View for Real {
    type V = Seq<u8>;

    closed spec fn view(&self) -> Seq<u8> {
        self.bytes@
    }
}

impl Real {
    /// Creates a new `Real` from the given literal bytes: an optional
    /// sign, then digits and at most one dot, with at least one digit.
    pub fn new(bytes: &[u8]) -> (r: Result<Self, PdfError>)
        ensures
            r.is_ok() <==> is_real_literal(bytes@),
            r.is_ok() ==> r.unwrap()@ == bytes@,
            !is_real_literal(bytes@) ==> r == Result::<Self, PdfError>::Err(PdfError::InvalidReal),
    {
        match validate_real_number_bytes(bytes) {
            Ok(_) => Ok(Self { bytes: vstd::slice::slice_to_vec(bytes) }),
            Err(e) => Err(e),
        }
    }

    /// Returns the literal bytes of the Real.
    pub fn as_bytes(&self) -> (r: &[u8])
        ensures
            r@ == self@,
            is_real_literal(self@),
    {
        proof {
            use_type_invariant(self);
        }
        self.bytes.as_slice()
    }
}

} // verus!
