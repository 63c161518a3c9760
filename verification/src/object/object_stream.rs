//! The PDF object stream: compressed direct objects gathered under one
//! stream dictionary, located by per-object number and offset indices.

use vstd::prelude::*;

use crate::object::dicionary::Dicionary;
use crate::object::DirectObject;

verus! {

/// PDF object stream index representation.
#[derive(Debug, Clone, Copy, PartialEq, Eq, Structural)]
pub struct ObjectStreamIndex {
    /// The number of the object in the object stream.
    pub object_number: u32,
    /// The byte offset of the object in the object stream.
    pub offset: usize,
}

impl ObjectStreamIndex {
    /// Creates a new `ObjectStreamIndex`.
    pub fn new(object_number: u32, offset: usize) -> (r: Self)
        ensures
            r.object_number == object_number,
            r.offset == offset,
    {
        Self { object_number, offset }
    }

    /// Returns the object number.
    pub fn object_number(&self) -> (r: &u32)
        ensures
            r == self.object_number,
    {
        &self.object_number
    }

    /// Returns the offset.
    pub fn offset(&self) -> (r: &usize)
        ensures
            r == self.offset,
    {
        &self.offset
    }
}

/// PDF object stream representation.
#[derive(Debug)]
pub struct ObjectStream {
    /// The stream dictionary.
    pub dictionary: Dicionary,
    /// The indices of objects in the object stream.
    pub indices: Vec<ObjectStreamIndex>,
    /// The objects in the object stream.
    pub objects: Vec<DirectObject>,
}

impl ObjectStream {
    /// Creates a new `ObjectStream`.
    pub fn new(dictionary: Dicionary, indices: Vec<ObjectStreamIndex>, objects: Vec<
        DirectObject,
    >) -> (r: Self)
        ensures
            r.dictionary == dictionary,
            r.indices == indices,
            r.objects == objects,
    {
        Self { dictionary, indices, objects }
    }

    /// Returns the indices of the object stream.
    pub fn indices(&self) -> (r: &Vec<ObjectStreamIndex>)
        ensures
            r == &self.indices,
    {
        &self.indices
    }

    /// Returns the objects of the object stream.
    pub fn objects(&self) -> (r: &Vec<DirectObject>)
        ensures
            r == &self.objects,
    {
        &self.objects
    }
}

} // verus!
