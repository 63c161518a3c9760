//! The PDF object kinds: scalar and composite direct objects, strings,
//! streams, and the indirect object machinery.

pub mod array;
pub mod boolean;
pub mod dicionary;
pub mod indirect;
pub mod integer;
pub mod name;
pub mod null;
pub mod object_stream;
pub mod real_number;
pub mod reference;
pub mod stream;
pub mod string;

use vstd::prelude::*;

use crate::object::array::spec_array_bytes;
use crate::object::boolean::spec_boolean_bytes;
use crate::object::dicionary::spec_dicionary_bytes;
use crate::object::indirect::spec_object_bytes;
use crate::object::name::spec_name_bytes;
use crate::object::null::null_bytes;
use crate::object::reference::spec_reference_bytes;
use crate::object::stream::spec_stream_bytes;
use crate::object::string::{spec_hexadecimal_string_bytes, spec_literal_string_bytes};

pub use array::{Array, ArrayElement};
pub use boolean::Boolean;
pub use dicionary::{Dicionary, DicionaryEntry, DictionaryValue};
pub use indirect::Object;
pub use integer::Integer;
pub use name::Name;
pub use null::Null;
pub use object_stream::{ObjectStream, ObjectStreamIndex};
pub use real_number::Real;
pub use reference::Reference;
pub use stream::Stream;
pub use string::{HexadecimalString, LiteralString};

verus! {

/// PDF Direct Object representation.
#[derive(Debug)]
pub enum DirectObject {
    /// PDF `Array` object.
    Array(Array),
    /// PDF `Boolean` object.
    Boolean(Boolean),
    /// PDF `Dicionary` object.
    Dicionary(Dicionary),
    /// PDF `LiteralString` object.
    LiteralString(LiteralString),
    /// PDF `HexadecimalString` object.
    HexadecimalString(HexadecimalString),
    /// PDF `Integer` object.
    Integer(Integer),
    /// PDF `Name` object.
    Name(Name),
    /// PDF `Null` object.
    Null(Null),
    /// PDF `Real` object.
    Real(Real),
    /// PDF `Stream` object.
    Stream(Stream),
}

/// The byte rendering of one direct object.
pub open spec fn spec_direct_object_bytes(o: DirectObject) -> Seq<u8> {
    match o {
        DirectObject::Array(a) => spec_array_bytes(a),
        DirectObject::Boolean(b) => spec_boolean_bytes(b),
        DirectObject::Dicionary(d) => spec_dicionary_bytes(d),
        DirectObject::LiteralString(s) => spec_literal_string_bytes(s),
        DirectObject::HexadecimalString(s) => spec_hexadecimal_string_bytes(s),
        DirectObject::Integer(i) => i@,
        DirectObject::Name(n) => spec_name_bytes(n),
        DirectObject::Null(_) => null_bytes(),
        DirectObject::Real(r) => r@,
        DirectObject::Stream(s) => spec_stream_bytes(s),
    }
}

impl DirectObject {
    /// Returns the byte rendering of the direct object.
    pub fn as_bytes(&self) -> (r: Vec<u8>)
        ensures
            r@ == spec_direct_object_bytes(*self),
    {
        match self {
            DirectObject::Array(obj) => obj.as_bytes(),
            DirectObject::Boolean(obj) => obj.as_bytes(),
            DirectObject::Dicionary(obj) => obj.as_bytes(),
            DirectObject::Integer(obj) => vstd::slice::slice_to_vec(obj.as_bytes()),
            DirectObject::Name(obj) => obj.as_bytes(),
            DirectObject::Null(obj) => obj.as_bytes(),
            DirectObject::Real(obj) => vstd::slice::slice_to_vec(obj.as_bytes()),
            DirectObject::LiteralString(obj) => obj.as_bytes(),
            DirectObject::HexadecimalString(obj) => obj.as_bytes(),
            DirectObject::Stream(obj) => obj.as_bytes(),
        }
    }
}

/// PDF Indirect Object representation.
#[derive(Debug)]
pub enum IndirectObject {
    /// PDF `Object` object.
    Object(Object),
    /// PDF `Reference` object.
    Reference(Reference),
}

/// The byte rendering of one indirect object.
pub open spec fn spec_indirect_object_bytes(o: IndirectObject) -> Seq<u8> {
    match o {
        IndirectObject::Object(obj) => spec_object_bytes(obj),
        IndirectObject::Reference(r) => spec_reference_bytes(r),
    }
}

impl IndirectObject {
    /// Returns the byte rendering of the indirect object.
    pub fn as_bytes(&self) -> (r: Vec<u8>)
        ensures
            r@ == spec_indirect_object_bytes(*self),
    {
        match self {
            IndirectObject::Object(obj) => obj.as_bytes(),
            IndirectObject::Reference(obj) => obj.as_bytes(),
        }
    }
}

} // verus!
