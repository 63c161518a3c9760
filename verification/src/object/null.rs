//! The PDF Null object. Its equality operator always answers `false`,
//! even against itself: deliberate, documented non-reflexive equality.

use vstd::prelude::*;

use crate::ascii::{LOWER_L, LOWER_N, LOWER_U};

verus! {

/// A PDF Null object representation.
///
/// This struct implements `PartialEq`, but all `Null` instances are
/// considered unequal to each other, an instance to itself included.
#[derive(Debug, Clone)]
pub struct Null;

/// The byte rendering of Null: the literal `null`.
pub open spec fn null_bytes() -> Seq<u8> {
    seq![LOWER_N, LOWER_U, LOWER_L, LOWER_L]
}

impl PartialEq for Null {
    /// Null objects are always considered unequal.
    fn eq(&self, _other: &Self) -> (r: bool) {
        false
    }
}

impl vstd::std_specs::cmp::PartialEqSpecImpl for Null {
    open spec fn obeys_eq_spec() -> bool {
        true
    }

    open spec fn eq_spec(&self, _other: &Null) -> bool {
        false
    }
}

impl Null {
    /// Creates a new `Null` object.
    pub fn new() -> Self {
        Self {  }
    }

    /// Returns the byte rendering: the literal `null`.
    pub fn as_bytes(&self) -> (r: Vec<u8>)
        ensures
            r@ == null_bytes(),
    {
        let mut r: Vec<u8> = Vec::new();
        r.push(LOWER_N);
        r.push(LOWER_U);
        r.push(LOWER_L);
        r.push(LOWER_L);
        proof {
            assert(r@ =~= null_bytes());
        }
        r
    }
}

} // verus!
