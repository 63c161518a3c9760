//! The entry point a redaction tool builds on: it owns the document
//! bytes through an in-memory byte source. Reading those bytes from a
//! file or a mapping is an outside concern; callers hand the content
//! over as a plain byte vector.

use vstd::prelude::*;

use crate::byte_source::{ByteSource, MemoryByteSource};

verus! {

/// A core implementation of this library.
#[derive(Debug, Clone)]
pub struct Redactor {
    /// The original byte source.
    source: MemoryByteSource,
}

impl View for Redactor {
    type V = Seq<u8>;

    closed spec fn view(&self) -> Seq<u8> {
        self.source@
    }
}

impl Redactor {
    /// Creates a new `Redactor` over no content.
    pub fn new() -> (r: Self)
        ensures
            r@ == Seq::<u8>::empty(),
    {
        Self { source: MemoryByteSource::new(Vec::new()) }
    }

    /// Creates a new `Redactor` over the given document bytes.
    pub fn from_bytes(data: Vec<u8>) -> (r: Self)
        ensures
            r@ == data@,
    {
        Self { source: MemoryByteSource::new(data) }
    }

    /// Returns the length of the content.
    pub fn content_len(&self) -> (r: usize)
        ensures
            r == self@.len(),
    {
        self.source.len()
    }
}

impl Default for Redactor {
    /// The default Redactor holds no content.
    fn default() -> (r: Self)
        ensures
            r@ == Seq::<u8>::empty(),
    {
        Self::new()
    }
}

} // verus!
