//! The PDF indirect Object: a numbered, generation-tracked object whose
//! equality goes by identity — number and generation — alone, never by
//! the payload it carries.

use vstd::prelude::*;

use crate::ascii::{LINE_FEED, LOWER_B, LOWER_D, LOWER_E, LOWER_J, LOWER_N, LOWER_O, SPACE};
use crate::error::PdfError;
use crate::object::{spec_direct_object_bytes, DirectObject};
use crate::render::{extend_bytes, spec_decimal, u64_to_decimal};

verus! {

/// PDF Indirect Object representation.
#[derive(Debug)]
pub struct Object {
    /// PDF Indirect Object number.
    number: u32,
    /// PDF Indirect Object generation.
    generation: u32,
    /// PDF Direct Object value.
    object: DirectObject,
}

impl Object {
    /// Every constructed Object has a nonzero number: zero is reserved.
    #[verifier::type_invariant]
    spec fn number_nonzero(self) -> bool {
        self.number != 0
    }

    /// The object number.
    pub closed spec fn spec_number(&self) -> u32 {
        self.number
    }

    /// The generation number.
    pub closed spec fn spec_generation(&self) -> u32 {
        self.generation
    }

    /// The direct object carried as the value.
    pub closed spec fn spec_object(&self) -> DirectObject {
        self.object
    }
}

/// The keyword opening an indirect object body: ` obj` and a line feed.
pub open spec fn obj_keyword_bytes() -> Seq<u8> {
    seq![SPACE, LOWER_O, LOWER_B, LOWER_J, LINE_FEED]
}

/// The keyword closing an indirect object body: a line feed and `endobj`.
pub open spec fn endobj_keyword_bytes() -> Seq<u8> {
    seq![LINE_FEED, LOWER_E, LOWER_N, LOWER_D, LOWER_O, LOWER_B, LOWER_J]
}

/// The byte rendering of an indirect Object:
/// `{number} {generation} obj\n{value}\nendobj`.
pub open spec fn spec_object_bytes(o: Object) -> Seq<u8> {
    spec_decimal(o.spec_number() as nat) + seq![SPACE] + spec_decimal(
        o.spec_generation() as nat,
    ) + obj_keyword_bytes() + spec_direct_object_bytes(o.spec_object()) + endobj_keyword_bytes()
}

impl PartialEq for Object {
    /// Objects are equal when number and generation are, whatever the
    /// payloads hold.
    fn eq(&self, other: &Self) -> (r: bool) {
        self.number == other.number && self.generation == other.generation
    }
}

impl vstd::std_specs::cmp::PartialEqSpecImpl for Object {
    open spec fn obeys_eq_spec() -> bool {
        true
    }

    open spec fn eq_spec(&self, other: &Object) -> bool {
        self.spec_number() == other.spec_number() && self.spec_generation()
            == other.spec_generation()
    }
}

/// Equality of indirect objects is identity alone: two objects compare
/// equal exactly when number and generation agree, whatever direct
/// objects they carry.
pub proof fn lemma_object_equality_is_identity(a: Object, b: Object)
    ensures
        vstd::std_specs::cmp::PartialEqSpec::eq_spec(&a, &b) <==> (a.spec_number()
            == b.spec_number() && a.spec_generation() == b.spec_generation()),
{
}

impl Object {
    /// Creates a new `Object` from the given number, generation, and
    /// direct object. Number zero is reserved and rejected.
    pub fn new(number: u32, generation: u32, object: DirectObject) -> (r: Result<Self, PdfError>)
        ensures
            r.is_ok() <==> number != 0,
            r.is_ok() ==> {
                &&& r.unwrap().spec_number() == number
                &&& r.unwrap().spec_generation() == generation
                &&& r.unwrap().spec_object() == object
            },
            number == 0 ==> r == Result::<Self, PdfError>::Err(PdfError::ZeroObjectNumber),
    {
        if number == 0 {
            return Err(PdfError::ZeroObjectNumber);
        }
        Ok(Self { number, generation, object })
    }

    /// Returns the number of the Indirect Object.
    pub fn number(&self) -> (r: &u32)
        ensures
            r == self.spec_number(),
            *r != 0,
    {
        proof {
            use_type_invariant(self);
        }
        &self.number
    }

    /// Returns the generation of the Indirect Object.
    pub fn generation(&self) -> (r: &u32)
        ensures
            r == self.spec_generation(),
    {
        &self.generation
    }

    /// Returns the direct object of the Indirect Object.
    pub fn object(&self) -> (r: &DirectObject)
        ensures
            r == self.spec_object(),
    {
        &self.object
    }

    /// Returns the byte rendering:
    /// `{number} {generation} obj\n{value}\nendobj`.
    pub fn as_bytes(&self) -> (r: Vec<u8>)
        ensures
            r@ == spec_object_bytes(*self),
    {
        let mut out = u64_to_decimal(self.number as u64);
        out.push(SPACE);
        let generation = u64_to_decimal(self.generation as u64);
        extend_bytes(&mut out, generation.as_slice());
        out.push(SPACE);
        out.push(LOWER_O);
        out.push(LOWER_B);
        out.push(LOWER_J);
        out.push(LINE_FEED);
        let value_bytes = self.object.as_bytes();
        extend_bytes(&mut out, value_bytes.as_slice());
        out.push(LINE_FEED);
        out.push(LOWER_E);
        out.push(LOWER_N);
        out.push(LOWER_D);
        out.push(LOWER_O);
        out.push(LOWER_B);
        out.push(LOWER_J);
        proof {
            assert(out@ =~= spec_object_bytes(*self));
        }
        out
    }
}

} // verus!
