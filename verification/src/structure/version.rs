//! The PDF version: a pair of numbers the standard has published,
//! `1.0` through `1.7` or `2.0`, defaulting to `1.7`.

use vstd::prelude::*;

use crate::ascii::{DOT, MINUS, PERCENT, UPPER_D, UPPER_F, UPPER_P};
use crate::error::PdfError;
use crate::render::{extend_bytes, spec_decimal, u64_to_decimal};
use crate::specification::{is_standard_version, validate_version};

verus! {

/// PDF version representation.
#[derive(Debug)]
pub struct Version {
    /// PDF version major number.
    major: u8,
    /// PDF version minor number.
    minor: u8,
    /// Byte representation of the version, `{major}.{minor}`.
    bytes: Vec<u8>,
}

impl Version {
    /// Every constructed Version names a pair the standard published,
    /// and caches exactly its dotted rendering.
    #[verifier::type_invariant]
    spec fn standard_holds(self) -> bool {
        &&& is_standard_version(self.major, self.minor)
        &&& self.bytes@ == spec_version_number_bytes(self.major, self.minor)
    }

    /// The major number.
    pub closed spec fn spec_major(&self) -> u8 {
        self.major
    }

    /// The minor number.
    pub closed spec fn spec_minor(&self) -> u8 {
        self.minor
    }
}

/// The dotted rendering of a version pair: `{major}.{minor}`.
pub open spec fn spec_version_number_bytes(major: u8, minor: u8) -> Seq<u8> {
    spec_decimal(major as nat) + seq![DOT] + spec_decimal(minor as nat)
}

/// The header line of a version: `%PDF-{major}.{minor}`.
pub open spec fn spec_version_line_bytes(v: Version) -> Seq<u8> {
    seq![PERCENT, UPPER_P, UPPER_D, UPPER_F, MINUS] + spec_version_number_bytes(
        v.spec_major(),
        v.spec_minor(),
    )
}

impl Clone for Version {
    /// Clones the Version, keeping its numbers.
    fn clone(&self) -> (r: Self)
        ensures
            r.spec_major() == self.spec_major(),
            r.spec_minor() == self.spec_minor(),
    {
        proof {
            use_type_invariant(self);
        }
        Self {
            major: self.major,
            minor: self.minor,
            bytes: vstd::slice::slice_to_vec(self.bytes.as_slice()),
        }
    }
}

impl Version {
    /// Creates a new `Version` with the given major and minor numbers;
    /// only pairs the standard published are accepted.
    pub fn new(major: u8, minor: u8) -> (r: Result<Self, PdfError>)
        ensures
            r.is_ok() <==> is_standard_version(major, minor),
            r.is_ok() ==> r.unwrap().spec_major() == major && r.unwrap().spec_minor() == minor,
            !is_standard_version(major, minor) ==> r == Result::<Self, PdfError>::Err(
                PdfError::InvalidVersion,
            ),
    {
        match validate_version(major, minor) {
            Ok(_) => {
                let mut bytes = u64_to_decimal(major as u64);
                bytes.push(DOT);
                let minor_digits = u64_to_decimal(minor as u64);
                extend_bytes(&mut bytes, minor_digits.as_slice());
                proof {
                    assert(bytes@ =~= spec_version_number_bytes(major, minor));
                }
                Ok(Self { major, minor, bytes })
            },
            Err(e) => Err(e),
        }
    }

    /// Returns the major version number.
    pub fn major(&self) -> (r: u8)
        ensures
            r == self.spec_major(),
    {
        self.major
    }

    /// Returns the minor version number.
    pub fn minor(&self) -> (r: u8)
        ensures
            r == self.spec_minor(),
    {
        self.minor
    }

    /// Returns the dotted rendering of the version, `{major}.{minor}`.
    pub fn as_bytes(&self) -> (r: &[u8])
        ensures
            r@ == spec_version_number_bytes(self.spec_major(), self.spec_minor()),
            is_standard_version(self.spec_major(), self.spec_minor()),
    {
        proof {
            use_type_invariant(self);
        }
        self.bytes.as_slice()
    }

    /// Returns the header line of the version: `%PDF-{major}.{minor}`.
    pub fn line_bytes(&self) -> (r: Vec<u8>)
        ensures
            r@ == spec_version_line_bytes(*self),
    {
        proof {
            use_type_invariant(self);
        }
        let mut out: Vec<u8> = Vec::new();
        out.push(PERCENT);
        out.push(UPPER_P);
        out.push(UPPER_D);
        out.push(UPPER_F);
        out.push(MINUS);
        extend_bytes(&mut out, self.bytes.as_slice());
        proof {
            assert(out@ =~= spec_version_line_bytes(*self));
        }
        out
    }
}

impl Default for Version {
    /// The default version is `1.7`.
    fn default() -> (r: Self)
        ensures
            r.spec_major() == 1,
            r.spec_minor() == 7,
    {
        match Self::new(1, 7) {
            Ok(v) => v,
            Err(_) => vstd::pervasive::unreached(),
        }
    }
}

} // verus!
