//! The PDF indirect Reference: a logical key naming an indirect object
//! by number and generation, never a pointer.

use vstd::prelude::*;

use crate::ascii::{SPACE, UPPER_R};
use crate::render::{extend_bytes, spec_decimal, u64_to_decimal};

verus! {

/// PDF Indirect Reference representation.
#[derive(Debug, Clone, Copy, PartialEq, Eq, Structural)]
pub struct Reference {
    /// PDF Indirect Reference object number.
    pub number: u32,
    /// PDF Indirect Reference object generation.
    pub generation: u32,
}

/// The byte rendering of a Reference: `{number} {generation} R`.
pub open spec fn spec_reference_bytes(r: Reference) -> Seq<u8> {
    spec_decimal(r.number as nat) + seq![SPACE] + spec_decimal(r.generation as nat) + seq![
        SPACE,
        UPPER_R,
    ]
}

impl Reference {
    /// Creates a new `Reference` from the given number and generation.
    pub fn new(number: u32, generation: u32) -> (r: Self)
        ensures
            r.number == number,
            r.generation == generation,
    {
        Self { number, generation }
    }

    /// Returns the number of the Indirect Reference.
    pub fn number(&self) -> (r: &u32)
        ensures
            r == self.number,
    {
        &self.number
    }

    /// Returns the generation of the Indirect Reference.
    pub fn generation(&self) -> (r: &u32)
        ensures
            r == self.generation,
    {
        &self.generation
    }

    /// Returns the byte rendering: `{number} {generation} R`.
    pub fn as_bytes(&self) -> (r: Vec<u8>)
        ensures
            r@ == spec_reference_bytes(*self),
    {
        let mut bytes = u64_to_decimal(self.number as u64);
        bytes.push(SPACE);
        let generation = u64_to_decimal(self.generation as u64);
        extend_bytes(&mut bytes, generation.as_slice());
        bytes.push(SPACE);
        bytes.push(UPPER_R);
        proof {
            assert(bytes@ =~= spec_reference_bytes(*self));
        }
        bytes
    }
}

} // verus!
