//! Byte-level building blocks of the serializers: appending byte runs and
//! rendering unsigned numbers as ASCII decimal, plain or zero-padded.

use vstd::prelude::*;

use crate::ascii::{DIGIT_0, UPPER_A};

verus! {

/// The uppercase ASCII hex digit for a value below sixteen.
pub open spec fn upper_hex_digit(d: nat) -> u8
    recommends
        d < 16,
{
    if d < 10 {
        (DIGIT_0 + d) as u8
    } else {
        (UPPER_A + (d - 10)) as u8
    }
}

/// The two uppercase hex digits of one byte, high nibble first.
pub open spec fn hex_pair(b: u8) -> Seq<u8> {
    seq![upper_hex_digit((b / 16) as nat), upper_hex_digit((b % 16) as nat)]
}

/// The ASCII digit for a value below ten.
pub open spec fn digit_byte(d: nat) -> u8
    recommends
        d < 10,
{
    (DIGIT_0 + d) as u8
}

/// The shortest ASCII decimal rendering of `n`: no sign, no leading zero
/// except for `n == 0` itself.
pub open spec fn spec_decimal(n: nat) -> Seq<u8>
    decreases n,
{
    if n < 10 {
        seq![digit_byte(n)]
    } else {
        spec_decimal(n / 10).push(digit_byte(n % 10))
    }
}

/// `spec_decimal(n)` rendered into a field of `width` digits by leading
/// zeros; a rendering already at or over the width is kept whole.
pub open spec fn spec_decimal_padded(n: nat, width: nat) -> Seq<u8> {
    if spec_decimal(n).len() >= width {
        spec_decimal(n)
    } else {
        Seq::new((width - spec_decimal(n).len()) as nat, |i: int| DIGIT_0) + spec_decimal(n)
    }
}

/// Ten raised to `k`.
pub open spec fn pow10(k: nat) -> nat
    decreases k,
{
    if k == 0 {
        1
    } else {
        10 * pow10((k - 1) as nat)
    }
}

/// A decimal rendering never outgrows the count of digits that bounds its
/// value: `n < 10^k` renders in at most `k` digits.
pub proof fn lemma_spec_decimal_len(n: nat, k: nat)
    requires
        k >= 1,
        n < pow10(k),
    ensures
        1 <= spec_decimal(n).len() <= k,
    decreases k,
{
    if n < 10 {
    } else {
        assert(pow10(k) == 10 * pow10((k - 1) as nat));
        lemma_spec_decimal_len(n / 10, (k - 1) as nat);
    }
}

/// Appends every byte of `src` to `out`, in order.
pub fn extend_bytes(out: &mut Vec<u8>, src: &[u8])
    ensures
        final(out)@ == old(out)@ + src@,
{
    for i in 0..src.len()
        invariant
            out@ =~= old(out)@ + src@.take(i as int),
    {
        out.push(src[i]);
        proof {
            assert(src@.take(i + 1).drop_last() =~= src@.take(i as int));
            assert(out@ =~= old(out)@ + src@.take(i + 1));
        }
    }
    proof {
        assert(src@.take(src@.len() as int) =~= src@);
    }
}

/// Renders `n` as shortest ASCII decimal.
pub fn u64_to_decimal(n: u64) -> (r: Vec<u8>)
    ensures
        r@ == spec_decimal(n as nat),
    decreases n,
{
    if n < 10 {
        let d: u8 = DIGIT_0 + (n as u8);
        vec![d]
    } else {
        let mut r = u64_to_decimal(n / 10);
        r.push(DIGIT_0 + ((n % 10) as u8));
        r
    }
}

/// Renders `n` as ASCII decimal in a zero-padded field of `width` digits.
pub fn u64_to_decimal_padded(n: u64, width: usize) -> (r: Vec<u8>)
    ensures
        r@ == spec_decimal_padded(n as nat, width as nat),
{
    let digits = u64_to_decimal(n);
    if digits.len() >= width {
        return digits;
    }
    let pad: usize = width - digits.len();
    let mut r: Vec<u8> = Vec::new();
    for i in 0..pad
        invariant
            r@ =~= Seq::new(i as nat, |j: int| DIGIT_0),
    {
        r.push(DIGIT_0);
        proof {
            assert(r@ =~= Seq::new((i + 1) as nat, |j: int| DIGIT_0));
        }
    }
    extend_bytes(&mut r, digits.as_slice());
    proof {
        assert(r@ =~= spec_decimal_padded(n as nat, width as nat));
    }
    r
}

} // verus!
