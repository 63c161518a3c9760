//! The PDF Array object: an ordered sequence of direct objects whose
//! order is significant and preserved, rendered between square brackets
//! with a single space between neighbours.

use vstd::prelude::*;

use crate::ascii::{LEFT_SQUARE, RIGHT_SQUARE, SPACE};
use crate::object::boolean::{spec_boolean_bytes, Boolean};
use crate::object::dicionary::{spec_dicionary_bytes, Dicionary};
use crate::object::integer::Integer;
use crate::object::name::{spec_name_bytes, Name};
use crate::object::null::{null_bytes, Null};
use crate::object::real_number::Real;
use crate::object::string::{spec_hexadecimal_string_bytes, spec_literal_string_bytes,
    HexadecimalString, LiteralString};

verus! {

/// A PDF Array object.
#[derive(Debug)]
pub struct Array {
    /// The objects contained in the Array, in rendering order.
    pub objects: Vec<ArrayElement>,
}

/// PDF Array element representation.
#[derive(Debug)]
pub enum ArrayElement {
    /// PDF `Array` object.
    Array(Array),
    /// PDF `Boolean` object.
    Boolean(Boolean),
    /// PDF `Dicionary` object.
    Dicionary(Dicionary),
    /// PDF `LiteralString` object.
    LiteralString(LiteralString),
    /// PDF `HexadecimalString` object.
    HexadecimalString(HexadecimalString),
    /// PDF `Integer` object.
    Integer(Integer),
    /// PDF `Name` object.
    Name(Name),
    /// PDF `Null` object.
    Null(Null),
    /// PDF `Real` object.
    Real(Real),
}

/// The byte rendering of one Array element.
pub open spec fn spec_element_bytes(e: ArrayElement) -> Seq<u8>
    decreases e,
{
    match e {
        ArrayElement::Array(a) => spec_array_bytes(a),
        ArrayElement::Boolean(b) => spec_boolean_bytes(b),
        ArrayElement::Dicionary(d) => spec_dicionary_bytes(d),
        ArrayElement::LiteralString(s) => spec_literal_string_bytes(s),
        ArrayElement::HexadecimalString(s) => spec_hexadecimal_string_bytes(s),
        ArrayElement::Integer(i) => i@,
        ArrayElement::Name(n) => spec_name_bytes(n),
        ArrayElement::Null(_) => null_bytes(),
        ArrayElement::Real(r) => r@,
    }
}

/// The rendering of a run of Array elements: neighbours separated by a
/// single space.
pub open spec fn spec_elements_bytes(s: Seq<ArrayElement>) -> Seq<u8>
    decreases s,
{
    if s.len() == 0 {
        Seq::empty()
    } else if s.len() == 1 {
        spec_element_bytes(s[0])
    } else {
        spec_elements_bytes(s.drop_last()) + seq![SPACE] + spec_element_bytes(s.last())
    }
}

/// The byte rendering of an Array: its elements between square brackets,
/// with no space inside the brackets themselves.
pub open spec fn spec_array_bytes(a: Array) -> Seq<u8>
    decreases a,
{
    seq![LEFT_SQUARE] + spec_elements_bytes(a.objects@) + seq![RIGHT_SQUARE]
}

impl Array {
    /// Creates a new `Array` from the given objects, kept in order.
    pub fn new(objects: Vec<ArrayElement>) -> (r: Self)
        ensures
            r.objects@ == objects@,
    {
        Self { objects }
    }

    /// Returns the objects contained in the Array.
    pub fn as_objects(&self) -> (r: &Vec<ArrayElement>)
        ensures
            r@ == self.objects@,
    {
        &self.objects
    }

    /// Returns the byte rendering of the Array.
    pub fn as_bytes(&self) -> (r: Vec<u8>)
        ensures
            r@ == spec_array_bytes(*self),
        decreases *self,
    {
        let mut out: Vec<u8> = Vec::new();
        out.push(LEFT_SQUARE);
        for i in 0..self.objects.len()
            invariant
                out@ =~= seq![LEFT_SQUARE] + spec_elements_bytes(self.objects@.take(i as int)),
            decreases self.objects.len() - i,
        {
            if i > 0 {
                out.push(SPACE);
            }
            proof {
                assert(decreases_to!(*self => self.objects@[i as int]));
            }
            let mut piece = self.objects[i].as_bytes();
            out.append(&mut piece);
            proof {
                assert(self.objects@.take(i + 1).drop_last() =~= self.objects@.take(i as int));
                assert(self.objects@.take(i + 1).last() == self.objects@[i as int]);
                assert(out@ =~= seq![LEFT_SQUARE] + spec_elements_bytes(
                    self.objects@.take(i + 1),
                ));
            }
        }
        out.push(RIGHT_SQUARE);
        proof {
            assert(self.objects@.take(self.objects@.len() as int) =~= self.objects@);
            assert(out@ =~= spec_array_bytes(*self));
        }
        out
    }
}

impl ArrayElement {
    /// Returns the byte rendering of the Array element.
    pub fn as_bytes(&self) -> (r: Vec<u8>)
        ensures
            r@ == spec_element_bytes(*self),
        decreases *self,
    {
        match self {
            ArrayElement::Array(obj) => obj.as_bytes(),
            ArrayElement::Boolean(obj) => obj.as_bytes(),
            ArrayElement::Dicionary(obj) => obj.as_bytes(),
            ArrayElement::Integer(obj) => vstd::slice::slice_to_vec(obj.as_bytes()),
            ArrayElement::Name(obj) => obj.as_bytes(),
            ArrayElement::Null(obj) => obj.as_bytes(),
            ArrayElement::Real(obj) => vstd::slice::slice_to_vec(obj.as_bytes()),
            ArrayElement::LiteralString(obj) => obj.as_bytes(),
            ArrayElement::HexadecimalString(obj) => obj.as_bytes(),
        }
    }
}

} // verus!
