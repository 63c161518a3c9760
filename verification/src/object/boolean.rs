//! The PDF Boolean object: a validated wrapper around a bit, rendered as
//! the literal `true` or `false`.

use vstd::prelude::*;

use crate::ascii::{LOWER_A, LOWER_E, LOWER_F, LOWER_L, LOWER_R, LOWER_S, LOWER_T, LOWER_U};
use crate::specification::{false_bytes, true_bytes};

verus! {

/// PDF Boolean object representation.
#[derive(Debug, Clone, Copy, PartialEq, Eq, Structural)]
pub struct Boolean(bool);

/// The byte rendering of a Boolean: the literal `true` or `false`.
pub open spec fn spec_boolean_bytes(b: Boolean) -> Seq<u8> {
    if b@ {
        true_bytes()
    } else {
        false_bytes()
    }
}

impl View for Boolean {
    type V = bool;

    closed spec fn view(&self) -> bool {
        self.0
    }
}

impl Boolean {
    /// Creates a new `Boolean` from the given Rust bool.
    pub fn new(value: bool) -> (r: Self)
        ensures
            r@ == value,
    {
        Self(value)
    }

    /// Creates a new `Boolean` representing `true`.
    pub fn truethy() -> (r: Self)
        ensures
            r@ == true,
    {
        Self(true)
    }

    /// Creates a new `Boolean` representing `false`.
    pub fn falsy() -> (r: Self)
        ensures
            r@ == false,
    {
        Self(false)
    }

    /// Returns the Rust bool.
    pub fn as_bool(&self) -> (r: bool)
        ensures
            r == self@,
    {
        self.0
    }

    /// Returns the byte rendering: the literal `true` or `false`.
    pub fn as_bytes(&self) -> (r: Vec<u8>)
        ensures
            r@ == spec_boolean_bytes(*self),
    {
        let mut r: Vec<u8> = Vec::new();
        if self.0 {
            r.push(LOWER_T);
            r.push(LOWER_R);
            r.push(LOWER_U);
            r.push(LOWER_E);
            proof {
                assert(r@ =~= true_bytes());
            }
        } else {
            r.push(LOWER_F);
            r.push(LOWER_A);
            r.push(LOWER_L);
            r.push(LOWER_S);
            r.push(LOWER_E);
            proof {
                assert(r@ =~= false_bytes());
            }
        }
        r
    }
}

} // verus!
