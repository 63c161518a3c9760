//! The byte-source capability: read-only, random access to the raw
//! bytes of a document, here backed by an in-memory buffer. Sources
//! backed by the file system live outside this crate and hand their
//! bytes over as plain values.

use vstd::prelude::*;

verus! {

/// A trait representing a source of PDF bytes.
pub trait ByteSource: Sized {
    /// The bytes the source holds.
    spec fn contents(&self) -> Seq<u8>;

    /// Returns a slice of bytes from the source for the given range.
    fn slice(&self, range: core::ops::Range<usize>) -> (r: &[u8])
        requires
            range.start <= range.end <= self.contents().len(),
        ensures
            r@ == self.contents().subrange(range.start as int, range.end as int),
    ;

    /// Returns the total length of the byte source.
    fn len(&self) -> (r: usize)
        ensures
            r == self.contents().len(),
    ;
}

/// A `ByteSource` implementation that holds PDF data in memory.
#[derive(Debug, Clone)]
pub struct MemoryByteSource {
    data: Vec<u8>,
}

impl View for MemoryByteSource {
    type V = Seq<u8>;

    closed spec fn view(&self) -> Seq<u8> {
        self.data@
    }
}

impl MemoryByteSource {
    /// Creates a new `MemoryByteSource` from the given byte vector.
    pub fn new(data: Vec<u8>) -> (r: Self)
        ensures
            r@ == data@,
    {
        Self { data }
    }
}

impl ByteSource for MemoryByteSource {
    open spec fn contents(&self) -> Seq<u8> {
        self@
    }

    fn slice(&self, range: core::ops::Range<usize>) -> (r: &[u8]) {
        vstd::slice::slice_subrange(self.data.as_slice(), range.start, range.end)
    }

    fn len(&self) -> (r: usize) {
        self.data.len()
    }
}

} // verus!
