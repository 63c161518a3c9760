//! Boolean convenience checks over PDF bytes, mirroring the validators
//! of the grammar layer.

use vstd::prelude::*;

use crate::specification::{is_byte_marker_value, is_regular_name_byte};

verus! {

/// Checks if the given byte is a valid name character in a PDF Name
/// object: the visible ASCII range, `0x21` through `0x7E`.
pub fn is_valid_name_char(byte: &u8) -> (r: bool)
    ensures
        r == is_regular_name_byte(*byte),
{
    0x21 <= *byte && *byte <= 0x7E
}

/// Checks if the given bytes may serve as a PDF byte marker: non-empty,
/// with every byte at or above `0x80`.
pub fn is_valid_byte_marker_value(bytes: &[u8]) -> (r: bool)
    ensures
        r == is_byte_marker_value(bytes@),
{
    if bytes.len() == 0 {
        return false;
    }
    for i in 0..bytes.len()
        invariant
            forall|j: int| 0 <= j < i ==> #[trigger] bytes@[j] >= 0x80,
    {
        if bytes[i] < 0x80 {
            return false;
        }
    }
    true
}

} // verus!
