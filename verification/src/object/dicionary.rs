//! The PDF Dictionary object: a mapping from Names to direct objects.
//! Construction keeps the first position of each key and lets the last
//! write of a duplicate key win; rendering joins `key value` pairs
//! between double angle brackets.

use vstd::prelude::*;

use crate::ascii::{LEFT_ANGLE, RIGHT_ANGLE, SPACE};
use crate::object::array::{spec_array_bytes, Array};
use crate::object::boolean::{spec_boolean_bytes, Boolean};
use crate::object::integer::Integer;
use crate::object::name::{spec_name_bytes, Name};
use crate::object::null::{null_bytes, Null};
use crate::object::real_number::Real;
use crate::object::reference::{spec_reference_bytes, Reference};
use crate::object::string::{spec_hexadecimal_string_bytes, spec_literal_string_bytes,
    HexadecimalString, LiteralString};

verus! {

/// PDF Dictionary entry representation.
#[derive(Debug)]
pub struct DicionaryEntry {
    pub key: Name,
    pub value: DictionaryValue,
}

/// PDF Dictionary object representation.
#[derive(Debug)]
pub struct Dicionary {
    /// The entries of the Dictionary, keyed uniquely, in rendering order.
    pub entries: Vec<DicionaryEntry>,
}

/// PDF Dictionary value representation.
#[derive(Debug)]
pub enum DictionaryValue {
    /// PDF `Array` object.
    Array(Array),
    /// PDF `Boolean` object.
    Boolean(Boolean),
    /// PDF `Dicionary` object.
    Dicionary(Dicionary),
    /// PDF `LiteralString` object.
    LiteralString(LiteralString),
    /// PDF `HexadecimalString` object.
    HexadecimalString(HexadecimalString),
    /// PDF `Integer` object.
    Integer(Integer),
    /// PDF `Name` object.
    Name(Name),
    /// PDF `Null` object.
    Null(Null),
    /// PDF `Real` object.
    Real(Real),
    /// PDF `Reference` to an indirect object.
    Reference(Reference),
}

/// The byte rendering of one Dictionary value.
pub open spec fn spec_value_bytes(v: DictionaryValue) -> Seq<u8>
    decreases v,
{
    match v {
        DictionaryValue::Array(a) => spec_array_bytes(a),
        DictionaryValue::Boolean(b) => spec_boolean_bytes(b),
        DictionaryValue::Dicionary(d) => spec_dicionary_bytes(d),
        DictionaryValue::LiteralString(s) => spec_literal_string_bytes(s),
        DictionaryValue::HexadecimalString(s) => spec_hexadecimal_string_bytes(s),
        DictionaryValue::Integer(i) => i@,
        DictionaryValue::Name(n) => spec_name_bytes(n),
        DictionaryValue::Null(_) => null_bytes(),
        DictionaryValue::Real(r) => r@,
        DictionaryValue::Reference(r) => spec_reference_bytes(r),
    }
}

/// The byte rendering of one entry: the escaped key, a space, the value.
pub open spec fn spec_entry_bytes(e: DicionaryEntry) -> Seq<u8>
    decreases e,
{
    spec_name_bytes(e.key) + seq![SPACE] + spec_value_bytes(e.value)
}

/// The rendering of a run of entries: neighbours separated by a single
/// space.
pub open spec fn spec_entries_bytes(s: Seq<DicionaryEntry>) -> Seq<u8>
    decreases s,
{
    if s.len() == 0 {
        Seq::empty()
    } else if s.len() == 1 {
        spec_entry_bytes(s[0])
    } else {
        spec_entries_bytes(s.drop_last()) + seq![SPACE] + spec_entry_bytes(s.last())
    }
}

/// The byte rendering of a Dictionary: its entries between double angle
/// brackets.
pub open spec fn spec_dicionary_bytes(d: Dicionary) -> Seq<u8>
    decreases d,
{
    seq![LEFT_ANGLE, LEFT_ANGLE] + spec_entries_bytes(d.entries@) + seq![
        RIGHT_ANGLE,
        RIGHT_ANGLE,
    ]
}

/// `s` with `e` written into it: the value of the first entry whose key
/// equals `e`'s is replaced, or `e` is appended when no entry matches.
pub open spec fn spec_upsert(s: Seq<DicionaryEntry>, e: DicionaryEntry) -> Seq<DicionaryEntry>
    decreases s.len(),
{
    if s.len() == 0 {
        seq![e]
    } else if s[0].key@ == e.key@ {
        seq![e] + s.skip(1)
    } else {
        seq![s[0]] + spec_upsert(s.skip(1), e)
    }
}

/// The entries that construction keeps for a given entry list: each
/// written in turn, so the last write to a key wins and keys are unique.
pub open spec fn spec_dedup(s: Seq<DicionaryEntry>) -> Seq<DicionaryEntry>
    decreases s.len(),
{
    if s.len() == 0 {
        Seq::empty()
    } else {
        spec_upsert(spec_dedup(s.drop_last()), s.last())
    }
}

/// The first value stored under a key, if any.
pub open spec fn spec_get(s: Seq<DicionaryEntry>, key: Seq<char>) -> Option<DictionaryValue>
    decreases s.len(),
{
    if s.len() == 0 {
        None
    } else if s[0].key@ == key {
        Some(s[0].value)
    } else {
        spec_get(s.skip(1), key)
    }
}

/// Writing an entry replaces the first match, when one exists.
proof fn lemma_upsert_found(s: Seq<DicionaryEntry>, e: DicionaryEntry, j: int)
    requires
        0 <= j < s.len(),
        s[j].key@ == e.key@,
        forall|k: int| 0 <= k < j ==> (#[trigger] s[k]).key@ != e.key@,
    ensures
        spec_upsert(s, e) == s.update(j, e),
    decreases j,
{
    if j == 0 {
        assert(spec_upsert(s, e) =~= s.update(0, e));
    } else {
        lemma_upsert_found(s.skip(1), e, j - 1);
        assert(s.skip(1).update(j - 1, e) =~= s.update(j, e).skip(1));
        assert(spec_upsert(s, e) =~= s.update(j, e));
    }
}

/// Writing an entry appends it, when no key matches.
proof fn lemma_upsert_missing(s: Seq<DicionaryEntry>, e: DicionaryEntry)
    requires
        forall|k: int| 0 <= k < s.len() ==> (#[trigger] s[k]).key@ != e.key@,
    ensures
        spec_upsert(s, e) == s.push(e),
    decreases s.len(),
{
    if s.len() == 0 {
        assert(spec_upsert(s, e) =~= s.push(e));
    } else {
        lemma_upsert_missing(s.skip(1), e);
        assert(spec_upsert(s, e) =~= s.push(e));
    }
}

/// Every key of a written entry list stays unique.
proof fn lemma_upsert_unique(s: Seq<DicionaryEntry>, e: DicionaryEntry)
    requires
        forall|i: int, j: int|
            0 <= i < j < s.len() ==> (#[trigger] s[i]).key@ != (#[trigger] s[j]).key@,
    ensures
        forall|i: int, j: int|
            0 <= i < j < spec_upsert(s, e).len() ==> (#[trigger] spec_upsert(s, e)[i]).key@ != (
            #[trigger] spec_upsert(s, e)[j]).key@,
    decreases s.len(),
{
    if s.len() == 0 {
    } else if s[0].key@ == e.key@ {
        assert forall|i: int, j: int|
            0 <= i < j < spec_upsert(s, e).len() implies (#[trigger] spec_upsert(s, e)[i]).key@
            != (#[trigger] spec_upsert(s, e)[j]).key@ by {
            assert(spec_upsert(s, e) =~= seq![e] + s.skip(1));
        }
    } else {
        assert(forall|i: int, j: int|
            0 <= i < j < s.skip(1).len() ==> (#[trigger] s.skip(1)[i]).key@ != (#[trigger] s.skip(
                1,
            )[j]).key@);
        lemma_upsert_unique(s.skip(1), e);
        lemma_upsert_key_set(s.skip(1), e);
    }
}

/// A written entry list holds exactly the old keys and the new one.
proof fn lemma_upsert_key_set(s: Seq<DicionaryEntry>, e: DicionaryEntry)
    ensures
        forall|i: int|
            0 <= i < spec_upsert(s, e).len() ==> (#[trigger] spec_upsert(s, e)[i]).key@ == e.key@
                || exists|j: int| 0 <= j < s.len() && (#[trigger] s[j]).key@ == spec_upsert(
                s,
                e,
            )[i].key@,
    decreases s.len(),
{
    if s.len() == 0 {
    } else if s[0].key@ == e.key@ {
    } else {
        lemma_upsert_key_set(s.skip(1), e);
    }
}

/// The value of the last entry of `s` under a key, if any: what "last
/// write wins" owes a lookup.
pub open spec fn spec_last_value(s: Seq<DicionaryEntry>, key: Seq<char>) -> Option<DictionaryValue>
    decreases s.len(),
{
    if s.len() == 0 {
        None
    } else if s.last().key@ == key {
        Some(s.last().value)
    } else {
        spec_last_value(s.drop_last(), key)
    }
}

/// Looking a key up after a write finds the written value, and any
/// other key finds what it found before.
proof fn lemma_get_upsert(s: Seq<DicionaryEntry>, e: DicionaryEntry, key: Seq<char>)
    ensures
        spec_get(spec_upsert(s, e), key) == if key == e.key@ {
            Some(e.value)
        } else {
            spec_get(s, key)
        },
    decreases s.len(),
{
    let out = spec_upsert(s, e);
    if s.len() == 0 {
        assert(out[0] == e);
        assert(out.skip(1) =~= Seq::<DicionaryEntry>::empty());
    } else if s[0].key@ == e.key@ {
        assert(out[0] == e);
        assert(out.skip(1) =~= s.skip(1));
    } else {
        assert(out[0] == s[0]);
        assert(out.skip(1) =~= spec_upsert(s.skip(1), e));
        lemma_get_upsert(s.skip(1), e, key);
    }
}

/// Last write wins: after construction, a key resolves to the value of
/// the last entry that named it in the given list, and to nothing when
/// none did.
pub proof fn lemma_dedup_last_write_wins(s: Seq<DicionaryEntry>, key: Seq<char>)
    ensures
        spec_get(spec_dedup(s), key) == spec_last_value(s, key),
    decreases s.len(),
{
    if s.len() > 0 {
        lemma_dedup_last_write_wins(s.drop_last(), key);
        lemma_get_upsert(spec_dedup(s.drop_last()), s.last(), key);
    }
}

/// The entries that construction keeps carry pairwise distinct keys.
pub proof fn lemma_dedup_unique_keys(s: Seq<DicionaryEntry>)
    ensures
        forall|i: int, j: int|
            0 <= i < j < spec_dedup(s).len() ==> (#[trigger] spec_dedup(s)[i]).key@ != (
            #[trigger] spec_dedup(s)[j]).key@,
    decreases s.len(),
{
    if s.len() > 0 {
        lemma_dedup_unique_keys(s.drop_last());
        lemma_upsert_unique(spec_dedup(s.drop_last()), s.last());
    }
}

impl Dicionary {
    /// Creates a new `Dicionary` from the given entries. Each entry is
    /// written in turn: the last write to a duplicate key wins, at the
    /// position of the first, so the stored keys are unique.
    pub fn new(entries: Vec<DicionaryEntry>) -> (r: Self)
        ensures
            r.entries@ == spec_dedup(entries@),
    {
        let ghost all = entries@;
        let mut out: Vec<DicionaryEntry> = Vec::new();
        let mut source = entries;
        let ghost n = all.len();
        let ghost mut i: int = 0;
        proof {
            assert(all.take(0) =~= Seq::<DicionaryEntry>::empty());
            assert(all.skip(0) =~= all);
        }
        while source.len() > 0
            invariant
                0 <= i <= n,
                n == all.len(),
                source@ =~= all.skip(i),
                out@ == spec_dedup(all.take(i)),
            decreases source@.len(),
        {
            let ghost old_out = out@;
            let entry = source.remove(0);
            proof {
                assert(entry == all[i]);
                assert(all.skip(i).remove(0) =~= all.skip(i + 1));
                assert(all.take(i + 1).drop_last() =~= all.take(i as int));
                assert(all.take(i + 1).last() == all[i as int]);
            }
            let mut j: usize = 0;
            let mut found = false;
            while j < out.len() && !found
                invariant
                    0 <= j <= out@.len(),
                    out@ == old_out,
                    !found ==> forall|k: int|
                        0 <= k < j ==> (#[trigger] out@[k]).key@ != entry.key@,
                    found ==> j < out@.len() && out@[j as int].key@ == entry.key@ && forall|k: int|
                        0 <= k < j ==> (#[trigger] out@[k]).key@ != entry.key@,
                decreases out@.len() - j + if found {
                    0int
                } else {
                    1int
                },
            {
                if out[j].key == entry.key {
                    found = true;
                } else {
                    j = j + 1;
                }
            }
            if found {
                proof {
                    lemma_upsert_found(old_out, entry, j as int);
                }
                out.set(j, entry);
            } else {
                proof {
                    lemma_upsert_missing(old_out, entry);
                }
                out.push(entry);
            }
            proof {
                i = i + 1;
            }
        }
        proof {
            assert(i == n);
            assert(all.take(n as int) =~= all);
        }
        Self { entries: out }
    }

    /// Returns the entries of the Dicionary.
    pub fn entries(&self) -> (r: &Vec<DicionaryEntry>)
        ensures
            r@ == self.entries@,
    {
        &self.entries
    }

    /// Whether the Dictionary holds an entry under the given key.
    pub fn has(&self, key: &Name) -> (r: bool)
        ensures
            r == spec_get(self.entries@, key@).is_some(),
    {
        self.get(key).is_some()
    }

    /// Returns the value stored under the given key, if any.
    pub fn get(&self, key: &Name) -> (r: Option<&DictionaryValue>)
        ensures
            match r {
                Some(v) => spec_get(self.entries@, key@) == Some(*v),
                None => spec_get(self.entries@, key@) is None,
            },
    {
        proof {
            assert(self.entries@.skip(0) =~= self.entries@);
        }
        for j in 0..self.entries.len()
            invariant
                spec_get(self.entries@, key@) == spec_get(
                    self.entries@.skip(j as int),
                    key@,
                ),
        {
            proof {
                assert(self.entries@.skip(j as int)[0] == self.entries@[j as int]);
                assert(self.entries@.skip(j as int).skip(1) =~= self.entries@.skip(j + 1));
            }
            if self.entries[j].key == *key {
                return Some(&self.entries[j].value);
            }
        }
        proof {
            assert(self.entries@.skip(self.entries@.len() as int) =~= Seq::<
                DicionaryEntry,
            >::empty());
        }
        None
    }

    /// Returns the byte rendering of the Dicionary.
    pub fn as_bytes(&self) -> (r: Vec<u8>)
        ensures
            r@ == spec_dicionary_bytes(*self),
        decreases *self,
    {
        let mut out: Vec<u8> = Vec::new();
        out.push(LEFT_ANGLE);
        out.push(LEFT_ANGLE);
        for i in 0..self.entries.len()
            invariant
                out@ =~= seq![LEFT_ANGLE, LEFT_ANGLE] + spec_entries_bytes(
                    self.entries@.take(i as int),
                ),
            decreases self.entries.len() - i,
        {
            let ghost pre = out@;
            if i > 0 {
                out.push(SPACE);
            }
            let mut key_bytes = self.entries[i].key.as_bytes();
            out.append(&mut key_bytes);
            out.push(SPACE);
            proof {
                assert(decreases_to!(*self => self.entries@[i as int].value));
            }
            let mut value_bytes = self.entries[i].value.as_bytes();
            out.append(&mut value_bytes);
            proof {
                let e = self.entries@[i as int];
                assert(out@ =~= pre + (if i > 0 {
                    seq![SPACE]
                } else {
                    Seq::<u8>::empty()
                }) + spec_entry_bytes(e));
                assert(self.entries@.take(i + 1).drop_last() =~= self.entries@.take(i as int));
                assert(self.entries@.take(i + 1).last() == e);
                if i == 0 {
                    assert(spec_entries_bytes(self.entries@.take(1)) == spec_entry_bytes(
                        self.entries@.take(1)[0],
                    ));
                    assert(self.entries@.take(1)[0] == e);
                }
                assert(out@ =~= seq![LEFT_ANGLE, LEFT_ANGLE] + spec_entries_bytes(
                    self.entries@.take(i + 1),
                ));
            }
        }
        out.push(RIGHT_ANGLE);
        out.push(RIGHT_ANGLE);
        proof {
            assert(self.entries@.take(self.entries@.len() as int) =~= self.entries@);
            assert(out@ =~= spec_dicionary_bytes(*self));
        }
        out
    }
}

impl DictionaryValue {
    /// Returns the byte rendering of the Dictionary value.
    pub fn as_bytes(&self) -> (r: Vec<u8>)
        ensures
            r@ == spec_value_bytes(*self),
        decreases *self,
    {
        match self {
            DictionaryValue::Array(obj) => obj.as_bytes(),
            DictionaryValue::Boolean(obj) => obj.as_bytes(),
            DictionaryValue::Dicionary(obj) => obj.as_bytes(),
            DictionaryValue::Integer(obj) => vstd::slice::slice_to_vec(obj.as_bytes()),
            DictionaryValue::Name(obj) => obj.as_bytes(),
            DictionaryValue::Null(obj) => obj.as_bytes(),
            DictionaryValue::Real(obj) => vstd::slice::slice_to_vec(obj.as_bytes()),
            DictionaryValue::LiteralString(obj) => obj.as_bytes(),
            DictionaryValue::HexadecimalString(obj) => obj.as_bytes(),
            DictionaryValue::Reference(obj) => obj.as_bytes(),
        }
    }
}

} // verus!
