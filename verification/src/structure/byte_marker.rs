//! The header byte marker: a non-empty run of bytes at or above `0x80`,
//! written as a comment so naive line-oriented tools treat the file as
//! binary.

use vstd::prelude::*;

use crate::ascii::PERCENT;
use crate::error::PdfError;
use crate::render::extend_bytes;
use crate::specification::{is_byte_marker_value, validate_byte_marker_value};

verus! {

/// PDF Byte Marker representation.
#[derive(Debug)]
pub struct ByteMarker {
    value: Vec<u8>,
}

impl ByteMarker {
    /// Every constructed ByteMarker is non-empty with all bytes at or
    /// above `0x80`.
    #[verifier::type_invariant]
    spec fn marker_holds(self) -> bool {
        is_byte_marker_value(self@)
    }
}

impl View for ByteMarker {
    type V = Seq<u8>;

    closed spec fn view(&self) -> Seq<u8> {
        self.value@
    }
}

/// The byte rendering of a marker: a percent sign, then its raw bytes.
pub open spec fn spec_byte_marker_bytes(m: ByteMarker) -> Seq<u8> {
    seq![PERCENT] + m@
}

impl Clone for ByteMarker {
    /// Clones the ByteMarker, keeping its bytes.
    fn clone(&self) -> (r: Self)
        ensures
            r@ == self@,
    {
        proof {
            use_type_invariant(self);
        }
        Self { value: vstd::slice::slice_to_vec(self.value.as_slice()) }
    }
}

impl ByteMarker {
    /// Creates a new `ByteMarker` from the given bytes: non-empty, each
    /// at or above `0x80`.
    pub fn new(value: Vec<u8>) -> (r: Result<Self, PdfError>)
        ensures
            r.is_ok() <==> is_byte_marker_value(value@),
            r.is_ok() ==> r.unwrap()@ == value@,
            !is_byte_marker_value(value@) ==> r == Result::<Self, PdfError>::Err(
                PdfError::InvalidByteMarker,
            ),
    {
        match validate_byte_marker_value(value.as_slice()) {
            Ok(_) => Ok(Self { value }),
            Err(e) => Err(e),
        }
    }

    /// Returns the value of the byte marker.
    pub fn value(&self) -> (r: &[u8])
        ensures
            r@ == self@,
            is_byte_marker_value(self@),
    {
        proof {
            use_type_invariant(self);
        }
        self.value.as_slice()
    }

    /// Returns the byte rendering: a percent sign, then the raw bytes.
    pub fn as_bytes(&self) -> (r: Vec<u8>)
        ensures
            r@ == spec_byte_marker_bytes(*self),
    {
        let mut out: Vec<u8> = Vec::new();
        out.push(PERCENT);
        extend_bytes(&mut out, self.value.as_slice());
        proof {
            assert(out@ =~= spec_byte_marker_bytes(*self));
        }
        out
    }
}

impl Default for ByteMarker {
    /// The default marker is the four bytes `0xE2 0xE3 0xCF 0xD3`.
    fn default() -> (r: Self)
        ensures
            r@ == seq![0xE2u8, 0xE3u8, 0xCFu8, 0xD3u8],
    {
        let mut value: Vec<u8> = Vec::new();
        value.push(0xE2);
        value.push(0xE3);
        value.push(0xCF);
        value.push(0xD3);
        proof {
            assert(value@ =~= seq![0xE2u8, 0xE3u8, 0xCFu8, 0xD3u8]);
        }
        Self { value }
    }
}

} // verus!
