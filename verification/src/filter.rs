//! The filter capability and the one codec whose algorithm is in scope:
//! ASCIIHexDecode. Decoding discards every byte that is not an ASCII hex
//! digit, pairs the rest left to right, and treats a missing final low
//! nibble as zero; encoding maps each byte to two uppercase hex digits.

use vstd::prelude::*;

use crate::ascii::{DIGIT_0, UPPER_A};
use crate::error::PdfError;
use crate::render::{hex_pair, upper_hex_digit};
use crate::specification::is_hex_digit;

verus! {

/// Trait for PDF Filters.
pub trait Filter: Sized {
    /// Decodes the given data using the filter.
    fn decode(&self, data: &[u8]) -> Result<Vec<u8>, PdfError>;

    /// Encodes the given data using the filter.
    fn encode(&self, data: &[u8]) -> Result<Vec<u8>, PdfError>;
}

/// The value of one ASCII hex digit; other bytes count as zero.
pub open spec fn hex_nibble(b: u8) -> u8 {
    if DIGIT_0 <= b && b <= 0x39 {
        (b - DIGIT_0) as u8
    } else if 0x41 <= b && b <= 0x46 {
        (b - 0x41 + 10) as u8
    } else if 0x61 <= b && b <= 0x66 {
        (b - 0x61 + 10) as u8
    } else {
        0
    }
}

/// The ASCII hex digits of a byte run, every other byte discarded.
pub open spec fn spec_hex_filter(s: Seq<u8>) -> Seq<u8>
    decreases s.len(),
{
    if s.len() == 0 {
        Seq::empty()
    } else if is_hex_digit(s.last()) {
        spec_hex_filter(s.drop_last()).push(s.last())
    } else {
        spec_hex_filter(s.drop_last())
    }
}

/// The bytes named by a run of hex digits, paired left to right; a
/// missing final low nibble counts as zero.
pub open spec fn spec_hex_decode_pairs(s: Seq<u8>) -> Seq<u8>
    decreases s.len(),
{
    if s.len() == 0 {
        Seq::empty()
    } else if s.len() == 1 {
        seq![(hex_nibble(s[0]) * 16) as u8]
    } else {
        seq![(hex_nibble(s[0]) * 16 + hex_nibble(s[1])) as u8] + spec_hex_decode_pairs(s.skip(2))
    }
}

/// What ASCIIHexDecode decoding returns for any input.
pub open spec fn spec_hex_decode(s: Seq<u8>) -> Seq<u8> {
    spec_hex_decode_pairs(spec_hex_filter(s))
}

/// The two uppercase hex digits of each input byte, concatenated.
pub open spec fn spec_hex_encode(s: Seq<u8>) -> Seq<u8>
    decreases s.len(),
{
    if s.len() == 0 {
        Seq::empty()
    } else {
        hex_pair(s[0]) + spec_hex_encode(s.skip(1))
    }
}

/// ASCIIHexDecode filter implementation.
///
/// This filter does not handle an end-of-data marker. Whitespace and
/// any other non-hexadecimal bytes are ignored during decoding.
#[derive(Debug, Clone, Copy, PartialEq, Eq, Structural)]
pub struct AsciiHexDecode;

/// The value of one hex digit byte.
fn hex_nibble_of(b: u8) -> (r: u8)
    ensures
        r == hex_nibble(b),
        r < 16,
{
    if DIGIT_0 <= b && b <= 0x39 {
        b - DIGIT_0
    } else if 0x41 <= b && b <= 0x46 {
        b - 0x41 + 10
    } else if 0x61 <= b && b <= 0x66 {
        b - 0x61 + 10
    } else {
        0
    }
}

impl AsciiHexDecode {
    /// Decodes ASCII hex data: every byte that is not a hex digit is
    /// discarded, the remaining digits pair up left to right, and a
    /// final unpaired digit gets a zero low nibble. Decoding never
    /// fails.
    pub fn decode(&self, data: &[u8]) -> (r: Result<Vec<u8>, PdfError>)
        ensures
            r.is_ok(),
            r.unwrap()@ == spec_hex_decode(data@),
    {
        let mut digits: Vec<u8> = Vec::new();
        for i in 0..data.len()
            invariant
                digits@ == spec_hex_filter(data@.take(i as int)),
        {
            let b = data[i];
            proof {
                assert(data@.take(i + 1).drop_last() =~= data@.take(i as int));
                assert(data@.take(i + 1).last() == b);
            }
            if (0x30 <= b && b <= 0x39) || (0x41 <= b && b <= 0x46) || (0x61 <= b && b <= 0x66) {
                digits.push(b);
            }
        }
        proof {
            assert(data@.take(data@.len() as int) =~= data@);
        }
        let ghost full = digits@;
        let mut out: Vec<u8> = Vec::new();
        let mut j: usize = 0;
        proof {
            assert(full.skip(0) =~= full);
        }
        while j < digits.len()
            invariant
                0 <= j <= full.len(),
                digits@ == full,
                spec_hex_decode_pairs(full) == out@ + spec_hex_decode_pairs(full.skip(j as int)),
            decreases full.len() - j,
        {
            let ghost rest = full.skip(j as int);
            let hi = hex_nibble_of(digits[j]);
            if j + 1 < digits.len() {
                let lo = hex_nibble_of(digits[j + 1]);
                out.push(hi * 16 + lo);
                proof {
                    assert(rest[0] == full[j as int]);
                    assert(rest[1] == full[j + 1]);
                    assert(rest.skip(2) =~= full.skip(j + 2));
                }
                j = j + 2;
            } else {
                out.push(hi * 16);
                proof {
                    assert(rest.len() == 1);
                    assert(rest[0] == full[j as int]);
                    assert(full.skip(j + 1) =~= Seq::<u8>::empty());
                }
                j = j + 1;
            }
        }
        proof {
            assert(full.skip(full.len() as int) =~= Seq::<u8>::empty());
        }
        Ok(out)
    }

    /// Encodes data as ASCII hex: each byte becomes two uppercase hex
    /// digits, with no separators or terminator. Encoding never fails.
    pub fn encode(&self, data: &[u8]) -> (r: Result<Vec<u8>, PdfError>)
        ensures
            r.is_ok(),
            r.unwrap()@ == spec_hex_encode(data@),
    {
        let mut out: Vec<u8> = Vec::new();
        proof {
            assert(data@.skip(0) =~= data@);
        }
        for i in 0..data.len()
            invariant
                spec_hex_encode(data@) == out@ + spec_hex_encode(data@.skip(i as int)),
        {
            let b = data[i];
            let hi: u8 = b / 16;
            let lo: u8 = b % 16;
            if hi < 10 {
                out.push(DIGIT_0 + hi);
            } else {
                out.push(UPPER_A + (hi - 10));
            }
            if lo < 10 {
                out.push(DIGIT_0 + lo);
            } else {
                out.push(UPPER_A + (lo - 10));
            }
            proof {
                assert(data@.skip(i as int)[0] == b);
                assert(data@.skip(i as int).skip(1) =~= data@.skip(i + 1));
            }
        }
        proof {
            assert(data@.skip(data@.len() as int) =~= Seq::<u8>::empty());
        }
        Ok(out)
    }
}

impl Filter for AsciiHexDecode {
    fn decode(&self, data: &[u8]) -> Result<Vec<u8>, PdfError> {
        AsciiHexDecode::decode(self, data)
    }

    fn encode(&self, data: &[u8]) -> Result<Vec<u8>, PdfError> {
        AsciiHexDecode::encode(self, data)
    }
}

/// A run made only of hex digits passes the discarding step unchanged:
/// decoding it reads exactly its own digits.
pub proof fn lemma_hex_filter_identity(s: Seq<u8>)
    requires
        forall|i: int| 0 <= i < s.len() ==> is_hex_digit(#[trigger] s[i]),
    ensures
        spec_hex_filter(s) == s,
    decreases s.len(),
{
    if s.len() > 0 {
        lemma_hex_filter_identity(s.drop_last());
        assert(spec_hex_filter(s) =~= s);
    }
}

/// Decoding reads only the hex digits: two inputs that keep the same
/// digit run — spaced out, or interleaved with any other bytes — decode
/// to the same bytes.
pub proof fn lemma_decode_ignores_non_hex(a: Seq<u8>, b: Seq<u8>)
    requires
        spec_hex_filter(a) == spec_hex_filter(b),
    ensures
        spec_hex_decode(a) == spec_hex_decode(b),
{
}

/// The uppercase form of a hex digit byte: lowercase letters rise, all
/// other bytes stand.
pub open spec fn upper_hex_of(b: u8) -> u8 {
    if 0x61 <= b && b <= 0x66 {
        (b - 0x20) as u8
    } else {
        b
    }
}

/// A byte run mapped to its uppercase-canonical form.
pub open spec fn spec_upper_hex(s: Seq<u8>) -> Seq<u8> {
    Seq::new(s.len(), |i: int| upper_hex_of(s[i]))
}

/// Re-encoding the byte named by two hex digits reproduces the digits,
/// uppercased.
proof fn lemma_hex_pair_of_nibbles(a: u8, b: u8)
    requires
        is_hex_digit(a),
        is_hex_digit(b),
    ensures
        hex_pair((hex_nibble(a) * 16 + hex_nibble(b)) as u8) == seq![
            upper_hex_of(a),
            upper_hex_of(b),
        ],
{
    let v = (hex_nibble(a) * 16 + hex_nibble(b)) as u8;
    assert(v / 16 == hex_nibble(a) && v % 16 == hex_nibble(b)) by (nonlinear_arith)
        requires
            v == hex_nibble(a) * 16 + hex_nibble(b),
            hex_nibble(a) < 16,
            hex_nibble(b) < 16,
    ;
    assert(upper_hex_digit((v / 16) as nat) == upper_hex_of(a));
    assert(upper_hex_digit((v % 16) as nat) == upper_hex_of(b));
    assert(hex_pair(v) =~= seq![upper_hex_of(a), upper_hex_of(b)]);
}

/// Encoding after decoding: over an even run of hex digits, the round
/// trip reproduces the input with its digits uppercased.
pub proof fn lemma_encode_decode_roundtrip(s: Seq<u8>)
    requires
        s.len() % 2 == 0,
        forall|i: int| 0 <= i < s.len() ==> is_hex_digit(#[trigger] s[i]),
    ensures
        spec_hex_encode(spec_hex_decode(s)) == spec_upper_hex(s),
    decreases s.len(),
{
    lemma_hex_filter_identity(s);
    if s.len() == 0 {
        assert(spec_hex_encode(spec_hex_decode(s)) =~= spec_upper_hex(s));
    } else {
        let rest = s.skip(2);
        assert(rest.len() % 2 == 0);
        lemma_encode_decode_roundtrip(rest);
        lemma_hex_filter_identity(rest);
        lemma_hex_pair_of_nibbles(s[0], s[1]);
        let decoded = spec_hex_decode_pairs(s);
        let v = (hex_nibble(s[0]) * 16 + hex_nibble(s[1])) as u8;
        assert(decoded == seq![v] + spec_hex_decode_pairs(rest));
        assert(decoded.len() > 0);
        assert(decoded[0] == v);
        assert(decoded.skip(1) =~= spec_hex_decode_pairs(rest));
        assert(spec_hex_encode(decoded) == hex_pair(v) + spec_hex_encode(
            spec_hex_decode_pairs(rest),
        ));
        assert(spec_hex_encode(spec_hex_decode(s)) =~= spec_upper_hex(s));
    }
}

} // verus!
