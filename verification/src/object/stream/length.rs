//! The `/Length` entry of a PDF stream dictionary: the key paired with
//! the Integer counting the stream's content bytes.

use vstd::prelude::*;

use crate::ascii::SPACE;
use crate::object::integer::{int_value, Integer};
use crate::object::name::{literal_name, spec_name_bytes, Name};
use crate::render::extend_bytes;

verus! {

/// PDF Stream Length representation.
#[derive(Debug)]
pub struct Length {
    /// The Length key `Name` object.
    pub name: Name,
    /// The Length value `Integer` object.
    pub value: Integer,
}

/// The byte rendering of a `/Length` entry: the key, a space, the value.
pub open spec fn spec_length_bytes(l: Length) -> Seq<u8> {
    spec_name_bytes(l.name) + seq![SPACE] + l.value@
}

impl Length {
    /// Creates a new `Length` entry under the `/Length` key.
    pub fn new(value: Integer) -> (r: Self)
        ensures
            r.name@ == "Length"@,
            r.value == value,
    {
        proof {
            reveal_strlit("Length");
        }
        Self { name: literal_name("Length"), value }
    }

    /// Returns the `Name` object of the Length.
    pub fn name_object(&self) -> (r: &Name)
        ensures
            r == &self.name,
    {
        &self.name
    }

    /// Returns the value of the `Length`.
    pub fn integer_object(&self) -> (r: &Integer)
        ensures
            r == &self.value,
    {
        &self.value
    }

    /// Returns the value of the `Length` as u32. The literal must name a
    /// value the type can hold.
    pub fn as_u32(&self) -> (r: u32)
        requires
            0 <= int_value(self.value@) <= 0xFFFF_FFFF,
        ensures
            r as int == int_value(self.value@),
    {
        self.value.as_u32()
    }

    /// Returns the byte rendering of the `Length` entry.
    pub fn as_bytes(&self) -> (r: Vec<u8>)
        ensures
            r@ == spec_length_bytes(*self),
    {
        let mut out = self.name.as_bytes();
        out.push(SPACE);
        extend_bytes(&mut out, self.value.as_bytes());
        proof {
            assert(out@ =~= spec_length_bytes(*self));
        }
        out
    }
}

} // verus!
