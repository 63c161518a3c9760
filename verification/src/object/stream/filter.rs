//! The `/Filter` entry of a PDF stream dictionary: one standard filter
//! name, or an array of them for a filter chain. The nine standard
//! codecs are enumerated by identity only; their bodies are external.

use vstd::prelude::*;

use crate::ascii::{LEFT_SQUARE, RIGHT_SQUARE, SPACE};
use crate::object::name::{literal_name, spec_escaped_name_of, spec_name_bytes, Name};
use crate::render::extend_bytes;

verus! {

/// PDF filter name representation: the standard codec identifiers.
#[derive(Debug, Clone, Copy, PartialEq, Eq, Structural)]
pub enum FilterName {
    /// PDF `ASCIIHexDecode` filter.
    ASCIIHexDecode,
    /// PDF `ASCII85Decode` filter.
    ASCII85Decode,
    /// PDF `LZWDecode` filter.
    LZWDecode,
    /// PDF `FlateDecode` filter.
    FlateDecode,
    /// PDF `RunLengthDecode` filter.
    RunLengthDecode,
    /// PDF `CCITTFaxDecode` filter.
    CCITTFaxDecode,
    /// PDF `JBIG2Decode` filter.
    JBIG2Decode,
    /// PDF `DCTDecode` filter.
    DCTDecode,
    /// PDF `JPXDecode` filter.
    JPXDecode,
    /// PDF `Crypt` filter.
    Crypt,
}

/// The `/Filter` name token of each standard filter.
pub open spec fn spec_filter_name_value(f: FilterName) -> Seq<char> {
    match f {
        FilterName::ASCIIHexDecode => "ASCIIHexDecode"@,
        FilterName::ASCII85Decode => "ASCII85Decode"@,
        FilterName::LZWDecode => "LZWDecode"@,
        FilterName::FlateDecode => "FlateDecode"@,
        FilterName::RunLengthDecode => "RunLengthDecode"@,
        FilterName::CCITTFaxDecode => "CCITTFaxDecode"@,
        FilterName::JBIG2Decode => "JBIG2Decode"@,
        FilterName::DCTDecode => "DCTDecode"@,
        FilterName::JPXDecode => "JPXDecode"@,
        FilterName::Crypt => "Crypt"@,
    }
}

impl FilterName {
    /// Returns the Name object of the Filter Name.
    pub fn name_object(&self) -> (r: Name)
        ensures
            r@ == spec_filter_name_value(*self),
    {
        match self {
            FilterName::ASCIIHexDecode => {
                proof {
                    reveal_strlit("ASCIIHexDecode");
                }
                literal_name("ASCIIHexDecode")
            },
            FilterName::ASCII85Decode => {
                proof {
                    reveal_strlit("ASCII85Decode");
                }
                literal_name("ASCII85Decode")
            },
            FilterName::LZWDecode => {
                proof {
                    reveal_strlit("LZWDecode");
                }
                literal_name("LZWDecode")
            },
            FilterName::FlateDecode => {
                proof {
                    reveal_strlit("FlateDecode");
                }
                literal_name("FlateDecode")
            },
            FilterName::RunLengthDecode => {
                proof {
                    reveal_strlit("RunLengthDecode");
                }
                literal_name("RunLengthDecode")
            },
            FilterName::CCITTFaxDecode => {
                proof {
                    reveal_strlit("CCITTFaxDecode");
                }
                literal_name("CCITTFaxDecode")
            },
            FilterName::JBIG2Decode => {
                proof {
                    reveal_strlit("JBIG2Decode");
                }
                literal_name("JBIG2Decode")
            },
            FilterName::DCTDecode => {
                proof {
                    reveal_strlit("DCTDecode");
                }
                literal_name("DCTDecode")
            },
            FilterName::JPXDecode => {
                proof {
                    reveal_strlit("JPXDecode");
                }
                literal_name("JPXDecode")
            },
            FilterName::Crypt => {
                proof {
                    reveal_strlit("Crypt");
                }
                literal_name("Crypt")
            },
        }
    }

    /// Returns the byte rendering of the Filter Name.
    pub fn as_bytes(&self) -> (r: Vec<u8>)
        ensures
            r@ == spec_escaped_name_of(spec_filter_name_value(*self)),
    {
        self.name_object().as_bytes()
    }
}

/// PDF filter value representation.
#[derive(Debug)]
pub enum FilterValue {
    /// PDF single Filter Name.
    Name(FilterName),
    /// PDF array of Filter Names, applied in order.
    Array(Vec<FilterName>),
}

/// The rendering of a run of filter names: neighbours separated by a
/// single space.
pub open spec fn spec_filter_names_bytes(s: Seq<FilterName>) -> Seq<u8>
    decreases s,
{
    if s.len() == 0 {
        Seq::empty()
    } else if s.len() == 1 {
        spec_escaped_name_of(spec_filter_name_value(s[0]))
    } else {
        spec_filter_names_bytes(s.drop_last()) + seq![SPACE] + spec_escaped_name_of(
            spec_filter_name_value(s.last()),
        )
    }
}

/// The byte rendering of a filter value: one name, or names between
/// square brackets.
pub open spec fn spec_filter_value_bytes(v: FilterValue) -> Seq<u8> {
    match v {
        FilterValue::Name(f) => spec_escaped_name_of(spec_filter_name_value(f)),
        FilterValue::Array(fs) => seq![LEFT_SQUARE] + spec_filter_names_bytes(fs@) + seq![
            RIGHT_SQUARE,
        ],
    }
}

/// Representation of a `/Filter` entry in a PDF stream dictionary.
#[derive(Debug)]
pub struct Filter {
    /// PDF filter name key.
    pub name: Name,
    /// PDF filter value.
    pub value: FilterValue,
}

/// The byte rendering of a `/Filter` entry: the key, a space, the value.
pub open spec fn spec_filter_bytes(f: Filter) -> Seq<u8> {
    spec_name_bytes(f.name) + seq![SPACE] + spec_filter_value_bytes(f.value)
}

impl Filter {
    /// Creates a new `Filter` entry under the `/Filter` key.
    pub fn new(value: FilterValue) -> (r: Self)
        ensures
            r.name@ == "Filter"@,
            r.value == value,
    {
        proof {
            reveal_strlit("Filter");
        }
        Self { name: literal_name("Filter"), value }
    }

    /// Returns the `Name` object of the Filter.
    pub fn name_object(&self) -> (r: &Name)
        ensures
            r == &self.name,
    {
        &self.name
    }

    /// Returns the `FilterValue` of the Filter.
    pub fn value_object(&self) -> (r: &FilterValue)
        ensures
            r == &self.value,
    {
        &self.value
    }

    /// Checks if the Filter is a single Name.
    pub fn is_name(&self) -> (r: bool)
        ensures
            r == (self.value is Name),
    {
        matches!(self.value, FilterValue::Name(_))
    }

    /// Checks if the Filter is an array of Names.
    pub fn is_array(&self) -> (r: bool)
        ensures
            r == (self.value is Array),
    {
        matches!(self.value, FilterValue::Array(_))
    }

    /// Returns the byte rendering of the `Filter` entry.
    pub fn as_bytes(&self) -> (r: Vec<u8>)
        ensures
            r@ == spec_filter_bytes(*self),
    {
        let mut out = self.name.as_bytes();
        out.push(SPACE);
        match &self.value {
            FilterValue::Name(filter_name) => {
                let name_bytes = filter_name.as_bytes();
                extend_bytes(&mut out, name_bytes.as_slice());
                proof {
                    assert(out@ =~= spec_filter_bytes(*self));
                }
            },
            FilterValue::Array(filter_names) => {
                out.push(LEFT_SQUARE);
                let ghost prefix = spec_name_bytes(self.name) + seq![SPACE, LEFT_SQUARE];
                for i in 0..filter_names.len()
                    invariant
                        out@ =~= prefix + spec_filter_names_bytes(filter_names@.take(i as int)),
                {
                    if i > 0 {
                        out.push(SPACE);
                    }
                    let name_bytes = filter_names[i].as_bytes();
                    extend_bytes(&mut out, name_bytes.as_slice());
                    proof {
                        assert(filter_names@.take(i + 1).drop_last() =~= filter_names@.take(
                            i as int,
                        ));
                        assert(filter_names@.take(i + 1).last() == filter_names@[i as int]);
                        if i == 0 {
                            assert(filter_names@.take(1)[0] == filter_names@[0]);
                        }
                        assert(out@ =~= prefix + spec_filter_names_bytes(
                            filter_names@.take(i + 1),
                        ));
                    }
                }
                out.push(RIGHT_SQUARE);
                proof {
                    assert(filter_names@.take(filter_names@.len() as int) =~= filter_names@);
                    assert(out@ =~= spec_filter_bytes(*self));
                }
            },
        }
        out
    }
}

} // verus!
