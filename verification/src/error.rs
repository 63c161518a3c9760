//! The error taxonomy of the library: grammar violations of scalar
//! literals, range overflows of structural fields, schema violations of
//! the trailer dictionary, and codec failures.

use vstd::prelude::*;

verus! {

/// Error returned by the eager, all-or-nothing validation that every
/// construction boundary of the library performs.
#[derive(Debug, Clone, Copy, PartialEq, Eq, Structural)]
pub enum PdfError {
    /// A boolean literal is neither `true` nor `false`.
    InvalidBoolean,
    /// An integer literal does not match `[+-]?[0-9]+`.
    InvalidInteger,
    /// A real literal has a bad character, more than one dot or no digit.
    InvalidReal,
    /// A logical name is empty.
    EmptyName,
    /// A serialized name does not start with a solidus.
    NameMissingSolidus,
    /// A serialized name holds a byte outside `0x21..=0x7E` or an inner solidus.
    InvalidNameChar,
    /// A hexadecimal string character is not an ASCII hex digit.
    InvalidHexDigit,
    /// A byte marker is empty or holds a byte below `0x80`.
    InvalidByteMarker,
    /// A version pair is outside `1.0..=1.7` and `2.0`.
    InvalidVersion,
    /// An indirect object number is zero.
    ZeroObjectNumber,
    /// A cross-reference offset exceeds the ten-digit field.
    OffsetOutOfRange,
    /// A cross-reference generation exceeds the five-digit field.
    GenerationOutOfRange,
    /// A trailer dictionary has no `/Size` entry.
    MissingSize,
    /// The `/Size` entry of a trailer dictionary is not an Integer.
    SizeNotInteger,
    /// The `/Size` entry is negative or too large for the table index.
    SizeOutOfRange,
    /// A trailer dictionary has no `/Root` entry.
    MissingRoot,
    /// The `/Root` entry of a trailer dictionary is not a Reference.
    RootNotReference,
    /// A codec rejected its input.
    FilterFailed,
}

} // verus!
