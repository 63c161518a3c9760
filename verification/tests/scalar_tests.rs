//! Tests of the scalar objects: Boolean, Integer, Real, Name, Null.

use redactor::error::PdfError;
use redactor::object::{Boolean, Integer, Name, Null, Real};

#[test]
fn should_create_true_boolean() {
    let boolean = Boolean::new(true);
    assert_eq!(boolean.as_bool(), true);
}

#[test]
fn should_create_false_boolean() {
    let boolean = Boolean::new(false);
    assert_eq!(boolean.as_bool(), false);
}

#[test]
fn boolean_renders_its_literal() {
    assert_eq!(Boolean::truethy().as_bytes(), b"true".to_vec());
    assert_eq!(Boolean::falsy().as_bytes(), b"false".to_vec());
}

#[test]
fn should_create_valid_real() {
    let real = Real::new(b"3.14");
    assert_eq!(real.is_ok(), true);

    let real = Real::new(b"-0.001");
    assert_eq!(real.is_ok(), true);

    let real = Real::new(b"-.0");
    assert_eq!(real.is_ok(), true);

    let real = Real::new(b"+1.");
    assert_eq!(real.is_ok(), true);

    let real = Real::new(b"invalid_real");
    assert_eq!(real.is_err(), true);

    let real = Real::new(b"-.");
    assert_eq!(real.is_err(), true);
}

#[test]
fn should_format_real_correctly() {
    let real = Real::new(b"2.71828").unwrap();
    assert_eq!(real.as_bytes(), b"2.71828");

    let real = Real::new(b"-123.456").unwrap();
    assert_eq!(real.as_bytes(), b"-123.456");

    let real = Real::new(b"0.0").unwrap();
    assert_eq!(real.as_bytes(), b"0.0");
}

#[test]
fn real_rejects_with_grammar_error() {
    assert_eq!(Real::new(b".").unwrap_err(), PdfError::InvalidReal);
    assert_eq!(Real::new(b"12.34.56").unwrap_err(), PdfError::InvalidReal);
    assert_eq!(Real::new(b"+-0.5").unwrap_err(), PdfError::InvalidReal);
    assert!(Real::new(b"-.25").is_ok());
    assert!(Real::new(b"+.75").is_ok());
    assert!(Real::new(b"42").is_ok());
}

#[test]
fn integer_accepts_exactly_the_grammar() {
    assert!(Integer::new(b"0").is_ok());
    assert!(Integer::new(b"123").is_ok());
    assert!(Integer::new(b"-456").is_ok());
    assert!(Integer::new(b"+789").is_ok());
    assert!(Integer::new(b"00123").is_ok());
    // Any digit run is a valid literal, however long.
    assert!(Integer::new(b"99999999999999999999").is_ok());

    assert_eq!(Integer::new(b"").unwrap_err(), PdfError::InvalidInteger);
    assert_eq!(Integer::new(b"-").unwrap_err(), PdfError::InvalidInteger);
    assert_eq!(Integer::new(b"+").unwrap_err(), PdfError::InvalidInteger);
    assert_eq!(Integer::new(b"12a3").unwrap_err(), PdfError::InvalidInteger);
}

#[test]
fn integer_converts_to_machine_values() {
    assert_eq!(Integer::new(b"123").unwrap().as_i32(), 123);
    assert_eq!(Integer::new(b"-123").unwrap().as_i32(), -123);
    assert_eq!(Integer::new(b"-2147483648").unwrap().as_i32(), -2147483648);
    assert_eq!(Integer::new(b"2147483647").unwrap().as_i32(), 2147483647);
    assert_eq!(Integer::new(b"-0").unwrap().as_i32(), 0);
    assert_eq!(Integer::new(b"4294967295").unwrap().as_u32(), 4294967295);
    assert_eq!(Integer::new(b"+007").unwrap().as_u32(), 7);
}

#[test]
fn integer_reports_the_u32_range() {
    assert!(Integer::new(b"0").unwrap().fits_u32());
    assert!(Integer::new(b"4294967295").unwrap().fits_u32());
    assert!(Integer::new(b"-0").unwrap().fits_u32());
    assert!(!Integer::new(b"4294967296").unwrap().fits_u32());
    assert!(!Integer::new(b"-1").unwrap().fits_u32());
    assert!(!Integer::new(b"99999999999999999999").unwrap().fits_u32());
}

#[test]
fn should_create_valid_name() {
    let name = Name::new("ExampleName").unwrap();
    assert_eq!(name.as_str(), "ExampleName");
}

#[test]
fn should_format_name_correctly() {
    let name = Name::new("NameWith#Special/Chars").unwrap();
    assert_eq!(name.as_bytes(), b"/NameWith#23Special#2FChars".to_vec());
}

#[test]
fn name_rejects_the_empty_value() {
    assert_eq!(Name::new("").unwrap_err(), PdfError::EmptyName);
}

#[test]
fn name_equality_uses_the_unescaped_value() {
    assert_eq!(Name::new("Size").unwrap(), Name::new("Size").unwrap());
    assert_ne!(Name::new("Size").unwrap(), Name::new("Root").unwrap());
}

#[test]
fn null_is_never_equal_even_to_itself() {
    let a = Null::new();
    let b = Null::new();
    assert!(a != b);
    assert!(a != a.clone());
    assert_eq!(a.as_bytes(), b"null".to_vec());
}
