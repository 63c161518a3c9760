//! The cross-reference machinery: fixed-width table entries, sections
//! covering contiguous object-number ranges, and the table that resolves
//! an object number to its entry, first matching section first.

use vstd::prelude::*;

use crate::ascii::{LINE_FEED, LOWER_F, LOWER_N, SPACE};
use crate::error::PdfError;
use crate::render::{extend_bytes, lemma_spec_decimal_len, pow10, spec_decimal,
    spec_decimal_padded, u64_to_decimal, u64_to_decimal_padded};

verus! {

/// The largest offset the ten-digit text field can carry.
pub const MAX_OFFSET: u64 = 9_999_999_999;

/// The largest generation the five-digit text field can carry.
pub const MAX_GENERATION: u32 = 65535;

/// PDF Cross Reference entry representation.
#[derive(Debug, Clone, Copy, PartialEq, Eq, Structural)]
pub struct CrossReference {
    /// The byte offset of the object in the PDF file.
    offset: u64,
    /// The generation number of the cross reference.
    generation: u32,
    /// Whether the object is in use or free.
    in_use: bool,
}

impl CrossReference {
    /// Every constructed entry fits the fixed ten- and five-digit text
    /// fields.
    #[verifier::type_invariant]
    spec fn fields_fit(self) -> bool {
        self.offset <= MAX_OFFSET && self.generation <= MAX_GENERATION
    }

    /// The byte offset.
    pub closed spec fn spec_offset(&self) -> u64 {
        self.offset
    }

    /// The generation number.
    pub closed spec fn spec_generation(&self) -> u32 {
        self.generation
    }

    /// Whether the entry is in use.
    pub closed spec fn spec_in_use(&self) -> bool {
        self.in_use
    }
}

/// The fixed-width rendering of one entry:
/// `{offset:010} {generation:05} {n|f} `.
pub open spec fn spec_cross_reference_bytes(c: CrossReference) -> Seq<u8> {
    spec_decimal_padded(c.spec_offset() as nat, 10) + seq![SPACE] + spec_decimal_padded(
        c.spec_generation() as nat,
        5,
    ) + seq![SPACE, if c.spec_in_use() { LOWER_N } else { LOWER_F }, SPACE]
}

impl CrossReference {
    /// Creates a new `CrossReference`. Offsets over the ten-digit field
    /// and generations over the five-digit field are rejected.
    pub fn new(offset: u64, generation: u32, in_use: bool) -> (r: Result<Self, PdfError>)
        ensures
            r.is_ok() <==> offset <= MAX_OFFSET && generation <= MAX_GENERATION,
            r.is_ok() ==> {
                &&& r.unwrap().spec_offset() == offset
                &&& r.unwrap().spec_generation() == generation
                &&& r.unwrap().spec_in_use() == in_use
            },
            offset > MAX_OFFSET ==> r == Result::<Self, PdfError>::Err(PdfError::OffsetOutOfRange),
            offset <= MAX_OFFSET && generation > MAX_GENERATION ==> r == Result::<
                Self,
                PdfError,
            >::Err(PdfError::GenerationOutOfRange),
    {
        if offset > MAX_OFFSET {
            return Err(PdfError::OffsetOutOfRange);
        }
        if generation > MAX_GENERATION {
            return Err(PdfError::GenerationOutOfRange);
        }
        Ok(Self { offset, generation, in_use })
    }

    /// Creates a new free `CrossReference`.
    pub fn free(offset: u64, generation: u32) -> (r: Result<Self, PdfError>)
        ensures
            r.is_ok() <==> offset <= MAX_OFFSET && generation <= MAX_GENERATION,
            r.is_ok() ==> {
                &&& r.unwrap().spec_offset() == offset
                &&& r.unwrap().spec_generation() == generation
                &&& !r.unwrap().spec_in_use()
            },
            offset > MAX_OFFSET ==> r == Result::<Self, PdfError>::Err(PdfError::OffsetOutOfRange),
            offset <= MAX_OFFSET && generation > MAX_GENERATION ==> r == Result::<
                Self,
                PdfError,
            >::Err(PdfError::GenerationOutOfRange),
    {
        Self::new(offset, generation, false)
    }

    /// Creates a new in-use `CrossReference`.
    pub fn in_use(offset: u64, generation: u32) -> (r: Result<Self, PdfError>)
        ensures
            r.is_ok() <==> offset <= MAX_OFFSET && generation <= MAX_GENERATION,
            r.is_ok() ==> {
                &&& r.unwrap().spec_offset() == offset
                &&& r.unwrap().spec_generation() == generation
                &&& r.unwrap().spec_in_use()
            },
            offset > MAX_OFFSET ==> r == Result::<Self, PdfError>::Err(PdfError::OffsetOutOfRange),
            offset <= MAX_OFFSET && generation > MAX_GENERATION ==> r == Result::<
                Self,
                PdfError,
            >::Err(PdfError::GenerationOutOfRange),
    {
        Self::new(offset, generation, true)
    }

    /// Returns the offset of the Cross Reference.
    pub fn offset(&self) -> (r: u64)
        ensures
            r == self.spec_offset(),
            r <= MAX_OFFSET,
    {
        proof {
            use_type_invariant(self);
        }
        self.offset
    }

    /// Returns the generation of the Cross Reference.
    pub fn generation(&self) -> (r: u32)
        ensures
            r == self.spec_generation(),
            r <= MAX_GENERATION,
    {
        proof {
            use_type_invariant(self);
        }
        self.generation
    }

    /// Returns whether the Cross Reference is in use.
    pub fn is_in_use(&self) -> (r: bool)
        ensures
            r == self.spec_in_use(),
    {
        self.in_use
    }

    /// Returns the fixed-width rendering of the entry: ten offset
    /// digits, five generation digits, the in-use flag, each followed by
    /// one space — nineteen bytes in all, twenty with the line feed the
    /// section appends.
    pub fn as_bytes(&self) -> (r: Vec<u8>)
        ensures
            r@ == spec_cross_reference_bytes(*self),
            r@.len() == 19,
    {
        proof {
            use_type_invariant(self);
            reveal_with_fuel(pow10, 11);
            lemma_spec_decimal_len(self.offset as nat, 10);
            lemma_spec_decimal_len(self.generation as nat, 5);
        }
        let mut out = u64_to_decimal_padded(self.offset, 10);
        out.push(SPACE);
        let generation = u64_to_decimal_padded(self.generation as u64, 5);
        extend_bytes(&mut out, generation.as_slice());
        out.push(SPACE);
        if self.in_use {
            out.push(LOWER_N);
        } else {
            out.push(LOWER_F);
        }
        out.push(SPACE);
        proof {
            assert(out@ =~= spec_cross_reference_bytes(*self));
        }
        out
    }
}

/// PDF cross reference section representation: a contiguous range of
/// object numbers starting at `start_object_number`, one entry each.
#[derive(Debug, Clone)]
pub struct CrossReferenceSection {
    /// The starting object number of the section.
    pub start_object_number: u32,
    /// The cross references of the section, indexed by
    /// `object_number - start_object_number`.
    pub entries: Vec<CrossReference>,
}

/// The entry a section holds for an object number: defined when the
/// number falls inside the section's contiguous range.
pub open spec fn spec_section_lookup(s: CrossReferenceSection, number: u32) -> Option<
    CrossReference,
> {
    if s.start_object_number <= number && number - s.start_object_number < s.entries@.len() {
        Some(s.entries@[number - s.start_object_number])
    } else {
        None
    }
}

/// The rendering of a run of entries, each on its own twenty-byte line.
pub open spec fn spec_xref_entries_bytes(s: Seq<CrossReference>) -> Seq<u8>
    decreases s,
{
    if s.len() == 0 {
        Seq::empty()
    } else {
        spec_xref_entries_bytes(s.drop_last()) + spec_cross_reference_bytes(s.last()) + seq![
            LINE_FEED,
        ]
    }
}

/// The byte rendering of a section: `{start} {count}\n`, then the
/// entries.
pub open spec fn spec_section_bytes(s: CrossReferenceSection) -> Seq<u8> {
    spec_decimal(s.start_object_number as nat) + seq![SPACE] + spec_decimal(s.entries@.len())
        + seq![LINE_FEED] + spec_xref_entries_bytes(s.entries@)
}

impl CrossReferenceSection {
    /// Creates a new `CrossReferenceSection`.
    pub fn new(start_object_number: u32, entries: Vec<CrossReference>) -> (r: Self)
        ensures
            r.start_object_number == start_object_number,
            r.entries@ == entries@,
    {
        Self { start_object_number, entries }
    }

    /// Returns the starting object number of the section.
    pub fn start_object_number(&self) -> (r: u32)
        ensures
            r == self.start_object_number,
    {
        self.start_object_number
    }

    /// Returns the number of entries in the section.
    pub fn len(&self) -> (r: usize)
        ensures
            r == self.entries@.len(),
    {
        self.entries.len()
    }

    /// Returns the Cross Reference for the given object number, if the
    /// section's range covers it.
    pub fn reference_of_number(&self, number: u32) -> (r: Option<&CrossReference>)
        ensures
            match r {
                Some(c) => spec_section_lookup(*self, number) == Some(*c),
                None => spec_section_lookup(*self, number) is None,
            },
    {
        if number < self.start_object_number {
            return None;
        }
        let index = (number - self.start_object_number) as usize;
        if index < self.entries.len() {
            Some(&self.entries[index])
        } else {
            None
        }
    }

    /// Returns the byte rendering of the section.
    pub fn as_bytes(&self) -> (r: Vec<u8>)
        ensures
            r@ == spec_section_bytes(*self),
    {
        let mut out = u64_to_decimal(self.start_object_number as u64);
        out.push(SPACE);
        let count = u64_to_decimal(self.entries.len() as u64);
        extend_bytes(&mut out, count.as_slice());
        out.push(LINE_FEED);
        let ghost prefix = out@;
        for i in 0..self.entries.len()
            invariant
                out@ =~= prefix + spec_xref_entries_bytes(self.entries@.take(i as int)),
        {
            let entry = self.entries[i].as_bytes();
            extend_bytes(&mut out, entry.as_slice());
            out.push(LINE_FEED);
            proof {
                assert(self.entries@.take(i + 1).drop_last() =~= self.entries@.take(i as int));
                assert(self.entries@.take(i + 1).last() == self.entries@[i as int]);
                assert(out@ =~= prefix + spec_xref_entries_bytes(self.entries@.take(i + 1)));
            }
        }
        proof {
            assert(self.entries@.take(self.entries@.len() as int) =~= self.entries@);
            assert(out@ =~= spec_section_bytes(*self));
        }
        out
    }
}

/// `s` with `x` placed after every section whose start is at or below
/// `x`'s: where a stable sort inserts one more section.
pub open spec fn spec_insert_by_start(s: Seq<CrossReferenceSection>, x: CrossReferenceSection)
    -> Seq<CrossReferenceSection>
    decreases s.len(),
{
    if s.len() == 0 {
        seq![x]
    } else if s.last().start_object_number <= x.start_object_number {
        s.push(x)
    } else {
        spec_insert_by_start(s.drop_last(), x).push(s.last())
    }
}

/// The sections in ascending order of start number, equal starts kept in
/// their given order: a stable insertion sort.
pub open spec fn spec_sort_by_start(s: Seq<CrossReferenceSection>) -> Seq<CrossReferenceSection>
    decreases s.len(),
{
    if s.len() == 0 {
        Seq::empty()
    } else {
        spec_insert_by_start(spec_sort_by_start(s.drop_last()), s.last())
    }
}

/// A run of sections in ascending order of start number.
pub open spec fn spec_sections_sorted(s: Seq<CrossReferenceSection>) -> bool {
    forall|i: int, j: int|
        0 <= i < j < s.len() ==> (#[trigger] s[i]).start_object_number <= (
        #[trigger] s[j]).start_object_number
}

/// Inserting a section into a sorted run keeps it sorted.
proof fn lemma_insert_by_start_sorted(s: Seq<CrossReferenceSection>, x: CrossReferenceSection)
    requires
        spec_sections_sorted(s),
    ensures
        spec_sections_sorted(spec_insert_by_start(s, x)),
    decreases s.len(),
{
    if s.len() == 0 {
    } else if s.last().start_object_number <= x.start_object_number {
        let out = s.push(x);
        assert forall|i: int, j: int| 0 <= i < j < out.len() implies (
        #[trigger] out[i]).start_object_number <= (#[trigger] out[j]).start_object_number by {
            if j < s.len() {
            } else {
                assert(out[j] == x);
                if i < s.len() - 1 {
                    assert(s[i].start_object_number <= s[s.len() - 1].start_object_number);
                }
            }
        }
    } else {
        assert(spec_sections_sorted(s.drop_last()));
        lemma_insert_by_start_sorted(s.drop_last(), x);
        let inner = spec_insert_by_start(s.drop_last(), x);
        lemma_insert_by_start_bound(s.drop_last(), x);
        let out = inner.push(s.last());
        assert forall|i: int, j: int| 0 <= i < j < out.len() implies (
        #[trigger] out[i]).start_object_number <= (#[trigger] out[j]).start_object_number by {
            if j < inner.len() {
            } else {
                assert(out[j] == s.last());
            }
        }
    }
}

/// Every element of an inserted run is one of the run's elements or the
/// inserted section, and its start stays bounded accordingly.
proof fn lemma_insert_by_start_bound(s: Seq<CrossReferenceSection>, x: CrossReferenceSection)
    ensures
        spec_insert_by_start(s, x).len() == s.len() + 1,
        forall|i: int|
            0 <= i < spec_insert_by_start(s, x).len() ==> (#[trigger] spec_insert_by_start(
                s,
                x,
            )[i]) == x || exists|j: int|
                0 <= j < s.len() && s[j] == spec_insert_by_start(s, x)[i],
    decreases s.len(),
{
    if s.len() == 0 {
    } else if s.last().start_object_number <= x.start_object_number {
    } else {
        lemma_insert_by_start_bound(s.drop_last(), x);
        assert forall|i: int| 0 <= i < spec_insert_by_start(s, x).len() implies (
        #[trigger] spec_insert_by_start(s, x)[i]) == x || exists|j: int|
            0 <= j < s.len() && s[j] == spec_insert_by_start(s, x)[i] by {
            let out = spec_insert_by_start(s, x);
            let inner = spec_insert_by_start(s.drop_last(), x);
            if i < inner.len() {
                if inner[i] == x {
                } else {
                    let j = choose|j: int| 0 <= j < s.drop_last().len() && s.drop_last()[j]
                        == inner[i];
                    assert(s[j] == out[i]);
                }
            } else {
                assert(out[i] == s.last());
                assert(s[s.len() - 1] == out[i]);
            }
        }
    }
}

/// The sorted run is sorted.
pub proof fn lemma_sort_by_start_sorted(s: Seq<CrossReferenceSection>)
    ensures
        spec_sections_sorted(spec_sort_by_start(s)),
    decreases s.len(),
{
    if s.len() > 0 {
        lemma_sort_by_start_sorted(s.drop_last());
        lemma_insert_by_start_sorted(spec_sort_by_start(s.drop_last()), s.last());
    }
}

/// The sorted run holds exactly the given sections.
pub proof fn lemma_sort_by_start_permutes(s: Seq<CrossReferenceSection>)
    ensures
        spec_sort_by_start(s).to_multiset() == s.to_multiset(),
    decreases s.len(),
{
    broadcast use vstd::seq_lib::group_to_multiset_ensures;

    if s.len() > 0 {
        lemma_sort_by_start_permutes(s.drop_last());
        lemma_insert_by_start_multiset(spec_sort_by_start(s.drop_last()), s.last());
        assert(s.drop_last().push(s.last()) =~= s);
    }
}

/// Insertion adds exactly the inserted section to the run's contents.
proof fn lemma_insert_by_start_multiset(s: Seq<CrossReferenceSection>, x: CrossReferenceSection)
    ensures
        spec_insert_by_start(s, x).to_multiset() == s.to_multiset().insert(x),
    decreases s.len(),
{
    broadcast use vstd::seq_lib::group_to_multiset_ensures;

    if s.len() == 0 {
        assert(spec_insert_by_start(s, x).to_multiset() =~= s.to_multiset().insert(x));
    } else if s.last().start_object_number <= x.start_object_number {
    } else {
        lemma_insert_by_start_multiset(s.drop_last(), x);
        assert(s.drop_last().push(s.last()) =~= s);
        assert(spec_insert_by_start(s, x).to_multiset() =~= s.to_multiset().insert(x));
    }
}

/// Matches the exec placement of an insertion: with everything from `j`
/// on strictly greater and the element before `j` (when any) at or
/// below, the stable insertion point is exactly `j`.
proof fn lemma_insert_by_start_at(
    s: Seq<CrossReferenceSection>,
    x: CrossReferenceSection,
    j: int,
)
    requires
        0 <= j <= s.len(),
        forall|k: int|
            j <= k < s.len() ==> (#[trigger] s[k]).start_object_number > x.start_object_number,
        j > 0 ==> s[j - 1].start_object_number <= x.start_object_number,
    ensures
        spec_insert_by_start(s, x) == s.insert(j, x),
    decreases s.len(),
{
    if s.len() == 0 {
        assert(spec_insert_by_start(s, x) =~= s.insert(0, x));
    } else if s.last().start_object_number <= x.start_object_number {
        assert(j == s.len());
        assert(spec_insert_by_start(s, x) =~= s.insert(j, x));
    } else {
        assert(j < s.len());
        lemma_insert_by_start_at(s.drop_last(), x, j);
        assert(spec_insert_by_start(s.drop_last(), x).push(s.last()) =~= s.insert(j, x));
    }
}

/// PDF cross reference table representation: sections in ascending
/// order of start number.
#[derive(Debug, Clone)]
pub struct CrossReferenceTable {
    /// The sections of the cross reference table.
    sections: Vec<CrossReferenceSection>,
}

impl CrossReferenceTable {
    /// The sections, in their stored order.
    pub closed spec fn spec_sections(&self) -> Seq<CrossReferenceSection> {
        self.sections@
    }
}

/// The entry the table resolves an object number to: sections are tried
/// in order and the first whose range covers the number answers.
pub open spec fn spec_table_lookup(s: Seq<CrossReferenceSection>, number: u32) -> Option<
    CrossReference,
>
    decreases s.len(),
{
    if s.len() == 0 {
        None
    } else if spec_section_lookup(s[0], number) is Some {
        spec_section_lookup(s[0], number)
    } else {
        spec_table_lookup(s.skip(1), number)
    }
}

/// The byte rendering of a run of sections, concatenated.
pub open spec fn spec_sections_bytes(s: Seq<CrossReferenceSection>) -> Seq<u8>
    decreases s,
{
    if s.len() == 0 {
        Seq::empty()
    } else {
        spec_sections_bytes(s.drop_last()) + spec_section_bytes(s.last())
    }
}

impl CrossReferenceTable {
    /// Creates a new `CrossReferenceTable`: the given sections sorted
    /// ascending by start number, a stable sort that neither
    /// deduplicates nor merges overlapping ranges.
    pub fn new(sections: Vec<CrossReferenceSection>) -> (r: Self)
        ensures
            r.spec_sections() == spec_sort_by_start(sections@),
    {
        let ghost all = sections@;
        let mut out: Vec<CrossReferenceSection> = Vec::new();
        let mut source = sections;
        let ghost mut i: int = 0;
        proof {
            assert(all.take(0) =~= Seq::<CrossReferenceSection>::empty());
            assert(all.skip(0) =~= all);
        }
        while source.len() > 0
            invariant
                0 <= i <= all.len(),
                source@ =~= all.skip(i),
                out@ == spec_sort_by_start(all.take(i)),
            decreases source@.len(),
        {
            let ghost old_out = out@;
            let x = source.remove(0);
            proof {
                assert(x == all[i]);
                assert(all.skip(i).remove(0) =~= all.skip(i + 1));
                assert(all.take(i + 1).drop_last() =~= all.take(i));
                assert(all.take(i + 1).last() == all[i]);
            }
            let mut j: usize = out.len();
            while j > 0 && out[j - 1].start_object_number > x.start_object_number
                invariant
                    0 <= j <= out@.len(),
                    out@ == old_out,
                    forall|k: int|
                        j <= k < out@.len() ==> (#[trigger] out@[k]).start_object_number
                            > x.start_object_number,
                decreases j,
            {
                j = j - 1;
            }
            proof {
                lemma_insert_by_start_at(old_out, x, j as int);
            }
            out.insert(j, x);
            proof {
                i = i + 1;
            }
        }
        proof {
            assert(i == all.len());
            assert(all.take(all.len() as int) =~= all);
        }
        Self { sections: out }
    }

    /// Returns the sections of the Cross Reference Table.
    pub fn sections(&self) -> (r: &Vec<CrossReferenceSection>)
        ensures
            r@ == self.spec_sections(),
    {
        &self.sections
    }

    /// Returns the entry for the given object number: sections are
    /// tried in ascending order and the first covering range answers;
    /// a number no section covers resolves to none.
    pub fn reference_of_number(&self, number: u32) -> (r: Option<&CrossReference>)
        ensures
            match r {
                Some(c) => spec_table_lookup(self.spec_sections(), number) == Some(*c),
                None => spec_table_lookup(self.spec_sections(), number) is None,
            },
    {
        proof {
            assert(self.sections@.skip(0) =~= self.sections@);
        }
        for i in 0..self.sections.len()
            invariant
                spec_table_lookup(self.spec_sections(), number) == spec_table_lookup(
                    self.spec_sections().skip(i as int),
                    number,
                ),
        {
            proof {
                assert(self.sections@.skip(i as int)[0] == self.sections@[i as int]);
                assert(self.sections@.skip(i as int).skip(1) =~= self.sections@.skip(i + 1));
            }
            let found = self.sections[i].reference_of_number(number);
            if found.is_some() {
                return found;
            }
        }
        None
    }

    /// Returns the byte rendering of the table: its sections'
    /// renderings, concatenated.
    pub fn as_bytes(&self) -> (r: Vec<u8>)
        ensures
            r@ == spec_sections_bytes(self.spec_sections()),
    {
        let mut out: Vec<u8> = Vec::new();
        for i in 0..self.sections.len()
            invariant
                out@ =~= spec_sections_bytes(self.sections@.take(i as int)),
        {
            let piece = self.sections[i].as_bytes();
            extend_bytes(&mut out, piece.as_slice());
            proof {
                assert(self.sections@.take(i + 1).drop_last() =~= self.sections@.take(i as int));
                assert(self.sections@.take(i + 1).last() == self.sections@[i as int]);
                assert(out@ =~= spec_sections_bytes(self.sections@.take(i + 1)));
            }
        }
        proof {
            assert(self.sections@.take(self.sections@.len() as int) =~= self.sections@);
        }
        out
    }
}

} // verus!
