//! The end-of-file marker: a stateless value rendering `%%EOF`.

use vstd::prelude::*;

use crate::ascii::{PERCENT, UPPER_E, UPPER_F, UPPER_O};

verus! {

/// A PDF End-Of-File (EOF) marker representation.
#[derive(Debug, Clone, Copy, PartialEq, Eq, Structural)]
pub struct EOF;

/// The byte rendering of the EOF marker: `%%EOF`.
pub open spec fn eof_bytes() -> Seq<u8> {
    seq![PERCENT, PERCENT, UPPER_E, UPPER_O, UPPER_F]
}

impl EOF {
    /// Creates a new `EOF` marker.
    pub fn new() -> Self {
        Self {  }
    }

    /// Returns the byte rendering: `%%EOF`.
    pub fn as_bytes(&self) -> (r: Vec<u8>)
        ensures
            r@ == eof_bytes(),
    {
        let mut out: Vec<u8> = Vec::new();
        out.push(PERCENT);
        out.push(PERCENT);
        out.push(UPPER_E);
        out.push(UPPER_O);
        out.push(UPPER_F);
        proof {
            assert(out@ =~= eof_bytes());
        }
        out
    }
}

impl Default for EOF {
    fn default() -> Self {
        Self::new()
    }
}

} // verus!
