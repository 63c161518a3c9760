//! The file header: the version line, then the binary byte marker, as
//! two comment lines.

use vstd::prelude::*;

use crate::ascii::LINE_FEED;
use crate::render::extend_bytes;
use crate::structure::byte_marker::{spec_byte_marker_bytes, ByteMarker};
use crate::structure::version::{spec_version_line_bytes, Version};

verus! {

/// PDF Header representation.
#[derive(Debug, Clone)]
pub struct Header {
    /// PDF version of the header.
    pub version: Version,
    /// Byte marker of the header.
    pub byte_marker: ByteMarker,
}

/// The byte rendering of a Header: `%PDF-{major}.{minor}\n%{marker}`.
pub open spec fn spec_header_bytes(h: Header) -> Seq<u8> {
    spec_version_line_bytes(h.version) + seq![LINE_FEED] + spec_byte_marker_bytes(h.byte_marker)
}

impl Header {
    /// Creates a new `Header` with the given PDF version and marker.
    pub fn new(version: Version, byte_marker: ByteMarker) -> (r: Self)
        ensures
            r.version == version,
            r.byte_marker == byte_marker,
    {
        Self { version, byte_marker }
    }

    /// Returns the PDF version of the header.
    pub fn version(&self) -> (r: &Version)
        ensures
            r == &self.version,
    {
        &self.version
    }

    /// Returns the byte marker of the header.
    pub fn byte_marker(&self) -> (r: &ByteMarker)
        ensures
            r == &self.byte_marker,
    {
        &self.byte_marker
    }

    /// Returns the byte rendering: the version line, a line feed, the
    /// marker line.
    pub fn as_bytes(&self) -> (r: Vec<u8>)
        ensures
            r@ == spec_header_bytes(*self),
    {
        let mut out = self.version.line_bytes();
        out.push(LINE_FEED);
        let marker = self.byte_marker.as_bytes();
        extend_bytes(&mut out, marker.as_slice());
        proof {
            assert(out@ =~= spec_header_bytes(*self));
        }
        out
    }
}

impl Default for Header {
    /// The default header: version `1.7` with the default byte marker.
    fn default() -> (r: Self)
        ensures
            r.version.spec_major() == 1,
            r.version.spec_minor() == 7,
            r.byte_marker@ == seq![0xE2u8, 0xE3u8, 0xCFu8, 0xD3u8],
    {
        Self { version: Version::default(), byte_marker: ByteMarker::default() }
    }
}

} // verus!
