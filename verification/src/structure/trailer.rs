//! The file trailer: the final dictionary of a PDF file, which must
//! carry a non-negative Integer `/Size` and a Reference `/Root`, plus
//! the byte offset of the cross-reference table. The checks run in
//! order and each failure names its own error; a constructed Trailer
//! answers `size` and `root` without any possibility of failure.

use vstd::prelude::*;

use crate::ascii::{LINE_FEED, LOWER_A, LOWER_E, LOWER_F, LOWER_I, LOWER_L, LOWER_R, LOWER_S,
    LOWER_T, LOWER_X};
use crate::error::PdfError;
use crate::object::dicionary::{spec_dicionary_bytes, spec_get, Dicionary, DictionaryValue};
use crate::object::integer::int_value;
use crate::object::name::literal_name;
use crate::object::reference::Reference;
use crate::render::{extend_bytes, spec_decimal, u64_to_decimal};

verus! {

/// The `/Size` entry a trailer dictionary carries, if any.
pub open spec fn spec_size_entry(d: Dicionary) -> Option<DictionaryValue> {
    spec_get(d.entries@, "Size"@)
}

/// The `/Root` entry a trailer dictionary carries, if any.
pub open spec fn spec_root_entry(d: Dicionary) -> Option<DictionaryValue> {
    spec_get(d.entries@, "Root"@)
}

/// Whether the `/Size` entry is an Integer naming a table size: at
/// least zero and within the unsigned 32-bit range.
pub open spec fn spec_size_valid(d: Dicionary) -> bool {
    match spec_size_entry(d) {
        Some(DictionaryValue::Integer(i)) => 0 <= int_value(i@) <= 0xFFFF_FFFF,
        _ => false,
    }
}

/// Whether a dictionary satisfies the trailer schema: `/Size` present,
/// an Integer, in range; `/Root` present, a Reference.
pub open spec fn spec_trailer_dict_valid(d: Dicionary) -> bool {
    &&& spec_size_valid(d)
    &&& spec_root_entry(d) matches Some(DictionaryValue::Reference(_))
}

/// PDF Trailer representation.
#[derive(Debug)]
pub struct Trailer {
    /// The trailer dictionary.
    dictionary: Dicionary,
    /// The byte offset to the start of the cross-reference table.
    xref_offset: u64,
    /// The value of the dictionary's `/Size` entry, fixed at
    /// construction.
    size: u32,
    /// The dictionary's `/Root` reference, fixed at construction.
    root: Reference,
}

impl Trailer {
    /// The trailer dictionary.
    pub closed spec fn spec_dictionary(&self) -> Dicionary {
        self.dictionary
    }

    /// The byte offset to the start of the cross-reference table.
    pub closed spec fn spec_xref_offset(&self) -> u64 {
        self.xref_offset
    }

    /// The value of the `/Size` entry.
    pub closed spec fn spec_size(&self) -> u32 {
        self.size
    }

    /// The `/Root` reference.
    pub closed spec fn spec_root(&self) -> Reference {
        self.root
    }
}

/// The keyword line that opens a trailer: `trailer`.
pub open spec fn trailer_keyword_bytes() -> Seq<u8> {
    seq![LOWER_T, LOWER_R, LOWER_A, LOWER_I, LOWER_L, LOWER_E, LOWER_R]
}

/// The keyword line that precedes the offset: `startxref`.
pub open spec fn startxref_keyword_bytes() -> Seq<u8> {
    seq![LOWER_S, LOWER_T, LOWER_A, LOWER_R, LOWER_T, LOWER_X, LOWER_R, LOWER_E, LOWER_F]
}

/// The byte rendering of a Trailer:
/// `trailer\n{dictionary}\nstartxref\n{offset}\n`.
pub open spec fn spec_trailer_bytes(t: Trailer) -> Seq<u8> {
    trailer_keyword_bytes() + seq![LINE_FEED] + spec_dicionary_bytes(t.spec_dictionary()) + seq![
        LINE_FEED,
    ] + startxref_keyword_bytes() + seq![LINE_FEED] + spec_decimal(t.spec_xref_offset() as nat)
        + seq![LINE_FEED]
}

impl Trailer {
    /// Creates a new `Trailer` over the given dictionary and offset.
    /// The checks run in order: `/Size` present, an Integer, in range,
    /// then `/Root` present and a Reference; each failure names its own
    /// error, and success fixes `size` and `root` for good.
    pub fn new(dictionary: Dicionary, xref_offset: u64) -> (r: Result<Self, PdfError>)
        ensures
            r.is_ok() <==> spec_trailer_dict_valid(dictionary),
            r.is_ok() ==> {
                &&& r.unwrap().spec_dictionary() == dictionary
                &&& r.unwrap().spec_xref_offset() == xref_offset
                &&& (spec_size_entry(dictionary) matches Some(DictionaryValue::Integer(i))
                    && r.unwrap().spec_size() as int == int_value(i@))
                &&& (spec_root_entry(dictionary) matches Some(DictionaryValue::Reference(root))
                    && r.unwrap().spec_root() == root)
            },
            spec_size_entry(dictionary) is None ==> r == Result::<Self, PdfError>::Err(
                PdfError::MissingSize,
            ),
            (spec_size_entry(dictionary) matches Some(v) && !(v is Integer)) ==> r == Result::<
                Self,
                PdfError,
            >::Err(PdfError::SizeNotInteger),
            (spec_size_entry(dictionary) matches Some(DictionaryValue::Integer(i)) && !(0
                <= int_value(i@) <= 0xFFFF_FFFF)) ==> r == Result::<Self, PdfError>::Err(
                PdfError::SizeOutOfRange,
            ),
            spec_size_valid(dictionary) && spec_root_entry(dictionary) is None ==> r == Result::<
                Self,
                PdfError,
            >::Err(PdfError::MissingRoot),
            spec_size_valid(dictionary) && (spec_root_entry(dictionary) matches Some(v) && !(
            v is Reference)) ==> r == Result::<Self, PdfError>::Err(PdfError::RootNotReference),
    {
        proof {
            reveal_strlit("Size");
            reveal_strlit("Root");
        }
        let size_key = literal_name("Size");
        let size: u32 = match dictionary.get(&size_key) {
            None => {
                return Err(PdfError::MissingSize);
            },
            Some(DictionaryValue::Integer(i)) => {
                if !i.fits_u32() {
                    return Err(PdfError::SizeOutOfRange);
                }
                i.as_u32()
            },
            Some(_) => {
                return Err(PdfError::SizeNotInteger);
            },
        };
        let root_key = literal_name("Root");
        let root: Reference = match dictionary.get(&root_key) {
            None => {
                return Err(PdfError::MissingRoot);
            },
            Some(DictionaryValue::Reference(root)) => *root,
            Some(_) => {
                return Err(PdfError::RootNotReference);
            },
        };
        Ok(Self { dictionary, xref_offset, size, root })
    }

    /// Returns the trailer dictionary.
    pub fn dictionary_object(&self) -> (r: &Dicionary)
        ensures
            r == self.spec_dictionary(),
    {
        &self.dictionary
    }

    /// Returns the byte offset to the start of the cross-reference
    /// table.
    pub fn xref_offset(&self) -> (r: u64)
        ensures
            r == self.spec_xref_offset(),
    {
        self.xref_offset
    }

    /// Returns the table size the `/Size` entry names. A constructed
    /// Trailer always answers.
    pub fn size(&self) -> (r: u32)
        ensures
            r == self.spec_size(),
    {
        self.size
    }

    /// Returns the `/Root` reference. A constructed Trailer always
    /// answers.
    pub fn root(&self) -> (r: &Reference)
        ensures
            r == self.spec_root(),
    {
        &self.root
    }

    /// Returns the byte rendering:
    /// `trailer\n{dictionary}\nstartxref\n{offset}\n`.
    pub fn as_bytes(&self) -> (r: Vec<u8>)
        ensures
            r@ == spec_trailer_bytes(*self),
    {
        let mut out: Vec<u8> = Vec::new();
        out.push(LOWER_T);
        out.push(LOWER_R);
        out.push(LOWER_A);
        out.push(LOWER_I);
        out.push(LOWER_L);
        out.push(LOWER_E);
        out.push(LOWER_R);
        out.push(LINE_FEED);
        let dict_bytes = self.dictionary.as_bytes();
        extend_bytes(&mut out, dict_bytes.as_slice());
        out.push(LINE_FEED);
        out.push(LOWER_S);
        out.push(LOWER_T);
        out.push(LOWER_A);
        out.push(LOWER_R);
        out.push(LOWER_T);
        out.push(LOWER_X);
        out.push(LOWER_R);
        out.push(LOWER_E);
        out.push(LOWER_F);
        out.push(LINE_FEED);
        let offset = u64_to_decimal(self.xref_offset);
        extend_bytes(&mut out, offset.as_slice());
        out.push(LINE_FEED);
        proof {
            assert(out@ =~= spec_trailer_bytes(*self));
        }
        out
    }
}

} // verus!
