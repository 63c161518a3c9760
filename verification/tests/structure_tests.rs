//! Tests of the structural elements: version, byte marker, header,
//! end-of-file marker, cross-reference table and trailer.

use redactor::error::PdfError;
use redactor::object::{Dicionary, DicionaryEntry, DictionaryValue, Integer, Name, Reference};
use redactor::structure::{ByteMarker, CrossReference, CrossReferenceSection, CrossReferenceTable,
    Header, StructuralComment, Trailer, Version, EOF};

#[test]
fn should_return_reference_of_given_object_number() {
    let table = CrossReferenceTable::new(vec![
        CrossReferenceSection::new(1, vec![
            CrossReference::new(0, 65535, false).unwrap(),
            CrossReference::new(15, 0, true).unwrap(),
        ]),
        CrossReferenceSection::new(3, vec![
            CrossReference::new(45, 0, true).unwrap(),
            CrossReference::new(78, 0, true).unwrap(),
        ]),
    ]);

    let reference = table.reference_of_number(2);

    assert_eq!(reference, Some(&CrossReference::new(15, 0, true).unwrap()));

    let reference = table.reference_of_number(4);

    assert_eq!(reference, Some(&CrossReference::new(78, 0, true).unwrap()));
}

#[test]
fn should_error_if_offset_or_generation_are_out_of_bounds() {
    let reference = CrossReference::new(100000000000, 0, true);

    assert!(reference.is_err());

    let reference = CrossReference::new(0, 70000, true);
    assert!(reference.is_err());
}

#[test]
fn cross_reference_rejects_each_overflowing_field() {
    assert_eq!(CrossReference::new(10_000_000_000, 0, true).unwrap_err(), PdfError::OffsetOutOfRange);
    assert_eq!(CrossReference::new(0, 65536, false).unwrap_err(), PdfError::GenerationOutOfRange);
    assert!(CrossReference::new(9_999_999_999, 65535, true).is_ok());
    assert!(CrossReference::free(0, 65535).is_ok());
    assert!(!CrossReference::free(0, 65535).unwrap().is_in_use());
    assert!(CrossReference::in_use(15, 0).unwrap().is_in_use());
}

#[test]
fn table_resolves_uncovered_numbers_to_none() {
    let table = CrossReferenceTable::new(vec![
        CrossReferenceSection::new(3, vec![CrossReference::new(45, 0, true).unwrap()]),
        CrossReferenceSection::new(1, vec![CrossReference::new(0, 65535, false).unwrap()]),
    ]);

    // Sections were given out of order; construction sorts them.
    assert_eq!(table.sections()[0].start_object_number(), 1);
    assert_eq!(table.sections()[1].start_object_number(), 3);

    assert_eq!(table.reference_of_number(0), None);
    assert_eq!(table.reference_of_number(2), None);
    assert_eq!(table.reference_of_number(4), None);
    assert!(table.reference_of_number(1).is_some());
    assert!(table.reference_of_number(3).is_some());
}

#[test]
fn cross_reference_renders_twenty_byte_lines() {
    let section = CrossReferenceSection::new(1, vec![
        CrossReference::new(0, 65535, false).unwrap(),
        CrossReference::new(15, 0, true).unwrap(),
    ]);
    assert_eq!(section.len(), 2);
    assert_eq!(
        section.as_bytes(),
        b"1 2\n0000000000 65535 f \n0000000015 00000 n \n".to_vec()
    );

    let entry = CrossReference::new(15, 0, true).unwrap();
    assert_eq!(entry.as_bytes(), b"0000000015 00000 n ".to_vec());
    assert_eq!(entry.offset(), 15);
    assert_eq!(entry.generation(), 0);
}

#[test]
fn table_renders_its_sections_in_order() {
    let table = CrossReferenceTable::new(vec![
        CrossReferenceSection::new(3, vec![CrossReference::new(45, 0, true).unwrap()]),
        CrossReferenceSection::new(1, vec![CrossReference::new(0, 65535, false).unwrap()]),
    ]);
    assert_eq!(
        table.as_bytes(),
        b"1 1\n0000000000 65535 f \n3 1\n0000000045 00000 n \n".to_vec()
    );
}

#[test]
fn should_create_valid_byte_marker() {
    let byte_marker = ByteMarker::new(b"\xE2\xE3\xCF\xD3".to_vec()).unwrap();
    assert_eq!(byte_marker.value(), b"\xE2\xE3\xCF\xD3");
}

#[test]
fn byte_marker_rejects_low_or_missing_bytes() {
    assert_eq!(ByteMarker::new(vec![]).unwrap_err(), PdfError::InvalidByteMarker);
    assert_eq!(ByteMarker::new(vec![0x80, 0x7F]).unwrap_err(), PdfError::InvalidByteMarker);
    assert_eq!(ByteMarker::default().as_bytes(), b"%\xE2\xE3\xCF\xD3".to_vec());
}

#[test]
fn test_version_creation() {
    let version = Version::new(1, 7).unwrap();
    assert_eq!(version.major(), 1);
    assert_eq!(version.minor(), 7);
    assert_eq!(version.as_bytes(), b"1.7");
}

#[test]
fn version_rejects_unpublished_pairs() {
    assert_eq!(Version::new(1, 8).unwrap_err(), PdfError::InvalidVersion);
    assert_eq!(Version::new(3, 0).unwrap_err(), PdfError::InvalidVersion);
    let default = Version::default();
    assert_eq!(default.major(), 1);
    assert_eq!(default.minor(), 7);
}

#[test]
fn header_renders_version_line_and_marker() {
    let header = Header::default();
    assert_eq!(header.as_bytes(), b"%PDF-1.7\n%\xE2\xE3\xCF\xD3".to_vec());
    assert_eq!(header.version().major(), 1);
    assert_eq!(header.byte_marker().value(), b"\xE2\xE3\xCF\xD3");

    let header = Header::new(Version::new(2, 0).unwrap(), ByteMarker::new(vec![0x90]).unwrap());
    assert_eq!(header.as_bytes(), b"%PDF-2.0\n%\x90".to_vec());
}

#[test]
fn eof_renders_its_marker() {
    assert_eq!(EOF::new().as_bytes(), b"%%EOF".to_vec());
    assert_eq!(
        StructuralComment::EOF(EOF::default()).as_bytes(),
        b"%%EOF".to_vec()
    );
    assert_eq!(
        StructuralComment::Header(Header::default()).as_bytes(),
        b"%PDF-1.7\n%\xE2\xE3\xCF\xD3".to_vec()
    );
}

fn trailer_dict(size: DictionaryValue, root: DictionaryValue) -> Dicionary {
    Dicionary::new(vec![
        DicionaryEntry { key: Name::new("Size").unwrap(), value: size },
        DicionaryEntry { key: Name::new("Root").unwrap(), value: root },
    ])
}

#[test]
fn trailer_accepts_a_well_typed_dictionary() {
    let dict = trailer_dict(
        DictionaryValue::Integer(Integer::new(b"7").unwrap()),
        DictionaryValue::Reference(Reference::new(1, 0)),
    );
    let trailer = Trailer::new(dict, 1234).unwrap();
    assert_eq!(trailer.size(), 7);
    assert_eq!(trailer.root(), &Reference::new(1, 0));
    assert_eq!(trailer.xref_offset(), 1234);
}

#[test]
fn trailer_rejects_a_missing_size() {
    let dict = Dicionary::new(vec![DicionaryEntry {
        key: Name::new("Root").unwrap(),
        value: DictionaryValue::Reference(Reference::new(1, 0)),
    }]);
    assert_eq!(Trailer::new(dict, 0).unwrap_err(), PdfError::MissingSize);
}

#[test]
fn trailer_rejects_a_non_integer_size() {
    let dict = trailer_dict(
        DictionaryValue::Name(Name::new("seven").unwrap()),
        DictionaryValue::Reference(Reference::new(1, 0)),
    );
    assert_eq!(Trailer::new(dict, 0).unwrap_err(), PdfError::SizeNotInteger);
}

#[test]
fn trailer_rejects_a_negative_size() {
    let dict = trailer_dict(
        DictionaryValue::Integer(Integer::new(b"-1").unwrap()),
        DictionaryValue::Reference(Reference::new(1, 0)),
    );
    assert_eq!(Trailer::new(dict, 0).unwrap_err(), PdfError::SizeOutOfRange);
}

#[test]
fn trailer_rejects_a_missing_root() {
    let dict = Dicionary::new(vec![DicionaryEntry {
        key: Name::new("Size").unwrap(),
        value: DictionaryValue::Integer(Integer::new(b"7").unwrap()),
    }]);
    assert_eq!(Trailer::new(dict, 0).unwrap_err(), PdfError::MissingRoot);
}

#[test]
fn trailer_rejects_a_non_reference_root() {
    let dict = trailer_dict(
        DictionaryValue::Integer(Integer::new(b"7").unwrap()),
        DictionaryValue::Integer(Integer::new(b"1").unwrap()),
    );
    assert_eq!(Trailer::new(dict, 0).unwrap_err(), PdfError::RootNotReference);
}

#[test]
fn trailer_renders_its_frame() {
    let dict = trailer_dict(
        DictionaryValue::Integer(Integer::new(b"7").unwrap()),
        DictionaryValue::Reference(Reference::new(1, 0)),
    );
    let trailer = Trailer::new(dict, 1234).unwrap();
    assert_eq!(
        trailer.as_bytes(),
        b"trailer\n<</Size 7 /Root 1 0 R>>\nstartxref\n1234\n".to_vec()
    );
    assert_eq!(trailer.dictionary_object().as_bytes(), b"<</Size 7 /Root 1 0 R>>".to_vec());
}
