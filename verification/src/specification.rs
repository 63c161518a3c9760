//! Lexical grammars of the PDF scalar literals and structural markers,
//! as spec-level predicates together with their executable validators.

use vstd::prelude::*;

use crate::ascii::{LOWER_T, LOWER_R, LOWER_U, LOWER_E, LOWER_F, LOWER_A, LOWER_L, LOWER_S};
use crate::ascii::{DIGIT_0, DIGIT_9, PLUS, MINUS, DOT, SOLIDUS};
use crate::error::PdfError;

verus! {

/// An ASCII decimal digit.
pub open spec fn is_digit(b: u8) -> bool {
    DIGIT_0 <= b && b <= DIGIT_9
}

/// An ASCII hexadecimal digit, either case.
pub open spec fn is_hex_digit(b: u8) -> bool {
    ||| DIGIT_0 <= b && b <= DIGIT_9
    ||| 0x41 <= b && b <= 0x46
    ||| 0x61 <= b && b <= 0x66
}

/// A leading sign of a numeric literal.
pub open spec fn is_sign(b: u8) -> bool {
    b == PLUS || b == MINUS
}

/// The digit part of a numeric literal: what remains after an optional
/// leading sign.
pub open spec fn numeric_body(s: Seq<u8>) -> Seq<u8> {
    if s.len() > 0 && is_sign(s[0]) {
        s.skip(1)
    } else {
        s
    }
}

/// The grammar of an Integer literal: `[+-]?[0-9]+`, at least one digit.
pub open spec fn is_integer_literal(s: Seq<u8>) -> bool {
    &&& s.len() > 0
    &&& numeric_body(s).len() > 0
    &&& forall|i: int| 0 <= i < numeric_body(s).len() ==> is_digit(#[trigger] numeric_body(s)[i])
}

/// How many dots a byte sequence holds.
pub open spec fn dot_count(s: Seq<u8>) -> nat
    decreases s.len(),
{
    if s.len() == 0 {
        0
    } else {
        dot_count(s.drop_last()) + if s.last() == DOT { 1nat } else { 0nat }
    }
}

/// How many ASCII decimal digits a byte sequence holds.
pub open spec fn digit_count(s: Seq<u8>) -> nat
    decreases s.len(),
{
    if s.len() == 0 {
        0
    } else {
        digit_count(s.drop_last()) + if is_digit(s.last()) { 1nat } else { 0nat }
    }
}

/// The grammar of a Real literal: an optional sign, then digits and dots
/// only, at most one dot, at least one digit.
pub open spec fn is_real_literal(s: Seq<u8>) -> bool {
    &&& s.len() > 0
    &&& forall|i: int|
        0 <= i < numeric_body(s).len() ==> is_digit(#[trigger] numeric_body(s)[i])
            || numeric_body(s)[i] == DOT
    &&& dot_count(numeric_body(s)) <= 1
    &&& digit_count(numeric_body(s)) >= 1
}

/// The bytes of the literal `true`.
pub open spec fn true_bytes() -> Seq<u8> {
    seq![LOWER_T, LOWER_R, LOWER_U, LOWER_E]
}

/// The bytes of the literal `false`.
pub open spec fn false_bytes() -> Seq<u8> {
    seq![LOWER_F, LOWER_A, LOWER_L, LOWER_S, LOWER_E]
}

/// The grammar of a Boolean literal: exactly `true` or `false`.
pub open spec fn is_boolean_literal(s: Seq<u8>) -> bool {
    s == true_bytes() || s == false_bytes()
}

/// A byte allowed inside a serialized name: the visible ASCII range.
pub open spec fn is_regular_name_byte(b: u8) -> bool {
    0x21 <= b && b <= 0x7E
}

/// The grammar of a serialized Name: a solidus, then visible ASCII bytes
/// none of which is another solidus.
pub open spec fn is_name_bytes(s: Seq<u8>) -> bool {
    &&& s.len() > 0
    &&& s[0] == SOLIDUS
    &&& forall|i: int|
        1 <= i < s.len() ==> is_regular_name_byte(#[trigger] s[i]) && s[i] != SOLIDUS
}

/// The grammar of a byte marker: non-empty, every byte at or above `0x80`.
pub open spec fn is_byte_marker_value(s: Seq<u8>) -> bool {
    s.len() > 0 && forall|i: int| 0 <= i < s.len() ==> #[trigger] s[i] >= 0x80
}

/// A version pair published by the PDF standard: `1.0` through `1.7`, or `2.0`.
pub open spec fn is_standard_version(major: u8, minor: u8) -> bool {
    (major == 1 && minor <= 7) || (major == 2 && minor == 0)
}

/// Validates that the given bytes spell a PDF Boolean literal.
pub fn validate_boolean_bytes(bytes: &[u8]) -> (r: Result<(), PdfError>)
    ensures
        r == if is_boolean_literal(bytes@) {
            Result::<(), PdfError>::Ok(())
        } else {
            Result::<(), PdfError>::Err(PdfError::InvalidBoolean)
        },
{
    if bytes.len() == 4 && bytes[0] == LOWER_T && bytes[1] == LOWER_R && bytes[2] == LOWER_U && bytes[3]
        == LOWER_E {
        proof {
            assert(bytes@ =~= true_bytes());
        }
        Ok(())
    } else if bytes.len() == 5 && bytes[0] == LOWER_F && bytes[1] == LOWER_A && bytes[2] == LOWER_L
        && bytes[3] == LOWER_S && bytes[4] == LOWER_E {
        proof {
            assert(bytes@ =~= false_bytes());
        }
        Ok(())
    } else {
        proof {
            assert(bytes@ != true_bytes() && bytes@ != false_bytes());
        }
        Err(PdfError::InvalidBoolean)
    }
}

/// Validates that the given bytes match the Integer grammar
/// `[+-]?[0-9]+` with at least one digit.
pub fn validate_integer_bytes(bytes: &[u8]) -> (r: Result<(), PdfError>)
    ensures
        r == if is_integer_literal(bytes@) {
            Result::<(), PdfError>::Ok(())
        } else {
            Result::<(), PdfError>::Err(PdfError::InvalidInteger)
        },
{
    if bytes.len() == 0 {
        return Err(PdfError::InvalidInteger);
    }
    let start: usize = if bytes[0] == PLUS || bytes[0] == MINUS {
        1
    } else {
        0
    };
    if bytes.len() == start {
        return Err(PdfError::InvalidInteger);
    }
    for i in start..bytes.len()
        invariant
            start <= 1,
            start < bytes@.len(),
            start == 1 <==> is_sign(bytes@[0]),
            start <= i <= bytes@.len(),
            forall|j: int| start <= j < i ==> is_digit(#[trigger] bytes@[j]),
    {
        if !(DIGIT_0 <= bytes[i] && bytes[i] <= DIGIT_9) {
            assert(!is_digit(numeric_body(bytes@)[i - start]));
            return Err(PdfError::InvalidInteger);
        }
    }
    assert(forall|j: int|
        0 <= j < numeric_body(bytes@).len() ==> is_digit(#[trigger] numeric_body(bytes@)[j]));
    Ok(())
}

/// Checks that the given byte may stand in a serialized PDF Name:
/// visible ASCII, `0x21` through `0x7E`.
pub fn validate_name_char(byte: &u8) -> (r: Result<(), PdfError>)
    ensures
        r == if is_regular_name_byte(*byte) {
            Result::<(), PdfError>::Ok(())
        } else {
            Result::<(), PdfError>::Err(PdfError::InvalidNameChar)
        },
{
    if 0x21 <= *byte && *byte <= 0x7E {
        Ok(())
    } else {
        Err(PdfError::InvalidNameChar)
    }
}

/// Validates that the given bytes form a serialized PDF Name: a leading
/// solidus, then visible ASCII bytes with no further solidus.
pub fn validate_name_bytes(bytes: &[u8]) -> (r: Result<(), PdfError>)
    ensures
        r.is_ok() <==> is_name_bytes(bytes@),
        bytes@.len() == 0 ==> r == Result::<(), PdfError>::Err(PdfError::EmptyName),
        bytes@.len() > 0 && bytes@[0] != SOLIDUS ==> r == Result::<(), PdfError>::Err(
            PdfError::NameMissingSolidus,
        ),
        !r.is_ok() && bytes@.len() > 0 && bytes@[0] == SOLIDUS ==> r == Result::<(), PdfError>::Err(
            PdfError::InvalidNameChar,
        ),
{
    if bytes.len() == 0 {
        return Err(PdfError::EmptyName);
    }
    if bytes[0] != SOLIDUS {
        return Err(PdfError::NameMissingSolidus);
    }
    for i in 1..bytes.len()
        invariant
            bytes@.len() > 0,
            bytes@[0] == SOLIDUS,
            1 <= i <= bytes@.len(),
            forall|j: int| 1 <= j < i ==> is_regular_name_byte(#[trigger] bytes@[j]) && bytes@[j]
                != SOLIDUS,
    {
        if bytes[i] < 0x21 || bytes[i] > 0x7E || bytes[i] == SOLIDUS {
            return Err(PdfError::InvalidNameChar);
        }
    }
    Ok(())
}

/// Validates that the given bytes match the Real grammar: an optional
/// sign, then digits and dots only, at most one dot, at least one digit.
pub fn validate_real_number_bytes(bytes: &[u8]) -> (r: Result<(), PdfError>)
    ensures
        r == if is_real_literal(bytes@) {
            Result::<(), PdfError>::Ok(())
        } else {
            Result::<(), PdfError>::Err(PdfError::InvalidReal)
        },
{
    if bytes.len() == 0 {
        return Err(PdfError::InvalidReal);
    }
    let start: usize = if bytes[0] == PLUS || bytes[0] == MINUS {
        1
    } else {
        0
    };
    let ghost body = numeric_body(bytes@);
    let mut dots: usize = 0;
    let mut digits: usize = 0;
    for i in start..bytes.len()
        invariant
            start <= 1,
            start == 1 <==> is_sign(bytes@[0]),
            start <= i <= bytes@.len(),
            body == numeric_body(bytes@),
            forall|j: int| 0 <= j < i - start ==> is_digit(#[trigger] body[j]) || body[j] == DOT,
            dots == dot_count(body.take(i - start)),
            digits == digit_count(body.take(i - start)),
            dots <= i,
            digits <= i,
    {
        let b = bytes[i];
        assert(body[i - start] == b);
        if !(DIGIT_0 <= b && b <= DIGIT_9) && b != DOT {
            return Err(PdfError::InvalidReal);
        }
        proof {
            assert(body.take(i - start + 1).drop_last() =~= body.take(i - start));
        }
        if b == DOT {
            dots = dots + 1;
        }
        if DIGIT_0 <= b && b <= DIGIT_9 {
            digits = digits + 1;
        }
    }
    proof {
        assert(body.take(bytes@.len() - start) =~= body);
    }
    if dots > 1 {
        return Err(PdfError::InvalidReal);
    }
    if digits == 0 {
        return Err(PdfError::InvalidReal);
    }
    Ok(())
}

/// Validates that the given bytes may serve as a header byte marker:
/// non-empty, with every byte at or above `0x80`.
pub fn validate_byte_marker_value(bytes: &[u8]) -> (r: Result<(), PdfError>)
    ensures
        r == if is_byte_marker_value(bytes@) {
            Result::<(), PdfError>::Ok(())
        } else {
            Result::<(), PdfError>::Err(PdfError::InvalidByteMarker)
        },
{
    if bytes.len() == 0 {
        return Err(PdfError::InvalidByteMarker);
    }
    for i in 0..bytes.len()
        invariant
            forall|j: int| 0 <= j < i ==> #[trigger] bytes@[j] >= 0x80,
    {
        if bytes[i] < 0x80 {
            return Err(PdfError::InvalidByteMarker);
        }
    }
    Ok(())
}

/// Validates that the major and minor pair is a version published by the
/// PDF standard: `1.0` through `1.7`, or `2.0`.
pub fn validate_version(major: u8, minor: u8) -> (r: Result<(), PdfError>)
    ensures
        r == if is_standard_version(major, minor) {
            Result::<(), PdfError>::Ok(())
        } else {
            Result::<(), PdfError>::Err(PdfError::InvalidVersion)
        },
{
    if (major == 1 && minor <= 7) || (major == 2 && minor == 0) {
        Ok(())
    } else {
        Err(PdfError::InvalidVersion)
    }
}

} // verus!
