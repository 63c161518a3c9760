//! Tests of the grammar validators and the byte-class helpers.

use redactor::check::{is_valid_byte_marker_value, is_valid_name_char};
use redactor::specification::{validate_boolean_bytes, validate_byte_marker_value,
    validate_integer_bytes, validate_name_bytes, validate_name_char, validate_real_number_bytes,
    validate_version};
use redactor::token::{Delimiter, Whitespace};

#[test]
fn should_validate_boolean_bytes() {
    let valid_bytes: &[&[u8]] = &[b"true", b"false"];

    for (index, bytes) in valid_bytes.iter().enumerate() {
        assert!(validate_boolean_bytes(bytes).is_ok(), "Expected valid: {:?} at index {}", bytes, index);
    }
}

#[test]
fn should_invalidate_boolean_bytes() {
    let invalid_bytes: &[&[u8]] = &[b"True", b"FALSE", b"yes", b"no", b"1", b"0", b"", b" "];

    for (index, bytes) in invalid_bytes.iter().enumerate() {
        assert!(!validate_boolean_bytes(bytes).is_ok(), "Expected invalid: {:?} at index {}", bytes, index);
    }
}

#[test]
fn should_validate_integer_bytes() {
    let valid_bytes: &[&[u8]] = &[
        b"0",
        b"123",
        b"-456",
        b"+789",
        b"00123",
    ];

    for (index, bytes) in valid_bytes.iter().enumerate() {
        assert!(validate_integer_bytes(bytes).is_ok(), "Expected valid: {:?} at index {}", bytes, index);
    }
}

#[test]
fn should_invalidate_integer_bytes() {
    let invalid_bytes: &[&[u8]] = &[
        b"",
        b"-",
        b"+",
        b"12a3",
        b"++123",
        b"--456",
        b"12.34",
        b" 123",
        b"123 ",
    ];

    for (index, bytes) in invalid_bytes.iter().enumerate() {
        assert!(!validate_integer_bytes(bytes).is_ok(), "Expected invalid: {:?} at index {}", bytes, index);
    }
}

#[test]
fn name_should_validate_name_characters() {
    // Valid name characters (within 0x21 to 0x7E)
    let valid_bytes: &[u8] = &[0x21, 0x30, 0x41, 0x5A, 0x61, 0x7E];
    for &byte in valid_bytes {
        assert!(validate_name_char(&byte).is_ok(), "Byte {:X} should be valid", byte);
    }

    // Invalid name characters (outside 0x21 to 0x7E)
    let invalid_bytes: &[u8] = &[0x00, 0x20, 0x7F, 0x80, 0xFF];
    for &byte in invalid_bytes {
        assert!(validate_name_char(&byte).is_err(), "Byte {:X} should be invalid", byte);
    }
}

#[test]
fn should_validate_name_bytes() {
    // Valid name bytes
    let valid_names: &[&[u8]] = &[b"/ValidName", b"/Another_Valid-Name123", b"/NameWithSymbols!@#"];
    for &name in valid_names {
        assert!(validate_name_bytes(name).is_ok(), "Name {:?} should be valid", name);
    }

    // Invalid name bytes
    let invalid_names: &[&[u8]] = &[b"", b"InvalidName", b"/Invalid Name ", b"/Invalid/Name", b"/Invalid\x7FName"];
    for &name in invalid_names {
        assert!(validate_name_bytes(name).is_err(), "Name {:?} should be invalid", name);
    }
}

#[test]
fn should_returns_true_if_valid_real_numbers() {
    let valid_real_numbers: &[&[u8]] = &[
        b"0.0",
        b"123.456",
        b"-0.789",
        b"+3.14",
        b"42",
        b"-7",
        b".5",
        b"-.25",
        b"+.75",
    ];

    for &number in valid_real_numbers {
        assert!(validate_real_number_bytes(number).is_ok());
    }
}

#[test]
fn should_returns_false_if_invalid_real_numbers() {
    let invalid_real_numbers: &[&[u8]] = &[
        b"",
        b"-",
        b"+",
        b".",
        b"12.34.56",
        b"12a34",
        b" 123.45",
        b"++3.14",
        b"--2.71",
        b"3..14",
        b".-5",
        b"+-0.5",
        b"-.",
        b"+.",
    ];

    for &number in invalid_real_numbers {
        assert!(validate_real_number_bytes(number).is_err());
    }
}

#[test]
fn byte_marker_should_validate_byte_marker_values() {
    // Valid byte marker values
    let valid_values = [vec![0x80], vec![0xFF], vec![0xE2, 0xE3, 0xCF, 0xD3]];
    for value in &valid_values {
        assert!(validate_byte_marker_value(value).is_ok(), "Value {:?} should be valid", value);
    }

    // Invalid byte marker values
    let invalid_values = [vec![0x7F], vec![0x00], vec![0x80, 0x7F], vec![0x00, 0xFF], vec![]];
    for value in &invalid_values {
        assert!(validate_byte_marker_value(value).is_err(), "Value {:?} should be invalid", value);
    }
}

#[test]
fn should_validate_versions() {
    let valid_versions = [(1, 0), (1, 4), (1, 7), (2, 0)];
    for (major, minor) in &valid_versions {
        assert!(validate_version(*major, *minor).is_ok(), "Version {}.{} should be valid", major, minor);
    }
}

#[test]
fn should_validate_invalid_versions() {
    let invalid_versions = [(0, 9), (1, 8), (2, 1), (3, 0)];
    for (major, minor) in &invalid_versions {
        assert!(validate_version(*major, *minor).is_err(), "Version {}.{} should be invalid", major, minor);
    }
}

#[test]
fn check_should_validate_name_characters() {
    // Valid name characters (within 0x21 to 0x7E)
    let valid_bytes = [0x21, 0x30, 0x41, 0x5A, 0x61, 0x7E];
    for &byte in &valid_bytes {
        assert!(is_valid_name_char(&byte), "Byte {:X} should be valid", byte);
    }

    // Invalid name characters (outside 0x21 to 0x7E)
    let invalid_bytes = [0x00, 0x20, 0x7F, 0x80, 0xFF];
    for &byte in &invalid_bytes {
        assert!(!is_valid_name_char(&byte), "Byte {:X} should be invalid", byte);
    }
}

#[test]
fn check_should_validate_byte_marker_values() {
    // Valid byte marker values
    let valid_values = [vec![0x80], vec![0xFF], vec![0xE2, 0xE3, 0xCF, 0xD3]];
    for value in &valid_values {
        assert!(is_valid_byte_marker_value(value), "Value {:?} should be valid", value);
    }

    // Invalid byte marker values
    let invalid_values = [vec![0x7F], vec![0x00], vec![0x80, 0x7F], vec![0x00, 0xFF], vec![]];
    for value in &invalid_values {
        assert!(!is_valid_byte_marker_value(value), "Value {:?} should be invalid", value);
    }
}

#[test]
fn should_compare_with_byte() {
    assert_eq!(Delimiter::LeftParen, b'(');
    assert_eq!(Delimiter::RightAngle, b'>');
    assert_eq!(Delimiter::Solidus, b'/');
    assert_eq!(Delimiter::PercentSign, b'%');
    assert_eq!(Delimiter::RightCurlyBracket, b'}');
    assert_eq!(Delimiter::LeftSquare, b'[');
    assert_eq!(Delimiter::RightSquare, b']');
    assert_eq!(Delimiter::LeftAngle, b'<');
    assert_eq!(Delimiter::RightParen, b')');
    assert_eq!(Delimiter::LeftCurlyBracket, b'{');
}

#[test]
fn should_compare_whitespace_with_byte() {
    assert_eq!(Whitespace::Null, 0x00);
    assert_eq!(Whitespace::Space, 0x20);
    assert_eq!(Whitespace::Tab, 0x09);
    assert_eq!(Whitespace::LineFeed, 0x0A);
    assert_eq!(Whitespace::FormFeed, 0x0C);
    assert_eq!(Whitespace::CarriageReturn, 0x0D);
}
