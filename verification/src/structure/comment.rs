//! The structural comments of a PDF file: the header lines at the top
//! and the end-of-file marker at the bottom.

use vstd::prelude::*;

use crate::structure::eof::{eof_bytes, EOF};
use crate::structure::header::{spec_header_bytes, Header};

verus! {

/// PDF Structural Comment representation.
#[derive(Debug, Clone)]
pub enum StructuralComment {
    /// PDF End Of File comment representation.
    EOF(EOF),
    /// PDF Header comment representation.
    Header(Header),
}

/// The byte rendering of a structural comment.
pub open spec fn spec_structural_comment_bytes(c: StructuralComment) -> Seq<u8> {
    match c {
        StructuralComment::EOF(_) => eof_bytes(),
        StructuralComment::Header(h) => spec_header_bytes(h),
    }
}

impl StructuralComment {
    /// Returns the byte rendering of the comment.
    pub fn as_bytes(&self) -> (r: Vec<u8>)
        ensures
            r@ == spec_structural_comment_bytes(*self),
    {
        match self {
            StructuralComment::EOF(e) => e.as_bytes(),
            StructuralComment::Header(h) => h.as_bytes(),
        }
    }
}

} // verus!
