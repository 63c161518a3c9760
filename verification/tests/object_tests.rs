//! Tests of the composite objects: arrays, dictionaries, strings,
//! indirect objects and references.

use redactor::object::{Array, ArrayElement, Boolean, Dicionary, DicionaryEntry, DictionaryValue,
    DirectObject, HexadecimalString, Integer, LiteralString, Name, Null, Object, Real, Reference,
    Stream};
use redactor::value::{Ascii, EscapeSequence, HexadecimalChar, LiteralChar};

#[test]
fn array_should_returns_valid_bytes() {
    let array = Array::new(vec![
        ArrayElement::Integer(Integer::new(b"42").unwrap()),
        ArrayElement::Boolean(Boolean::new(true)),
        ArrayElement::Name(Name::new("TestName").unwrap()),
        ArrayElement::Null(Null::new()),
        ArrayElement::Real(Real::new(b"3.14").unwrap()),
        ArrayElement::LiteralString(LiteralString::new(vec![
            LiteralChar::Ascii(Ascii::new(b'A')),
            LiteralChar::Ascii(Ascii::new(b'B')),
            LiteralChar::Ascii(Ascii::new(b'C')),
            LiteralChar::EscapeSequence(EscapeSequence::Tab),
            LiteralChar::Ascii(Ascii::new(b'D')),
            LiteralChar::EscapeSequence(EscapeSequence::EndOfLine),
        ])),
        ArrayElement::Dicionary(Dicionary::new(vec![
            DicionaryEntry {
                key: Name::new("Elements").unwrap(),
                value: DictionaryValue::Array(Array::new(vec![
                    ArrayElement::Integer(Integer::new(b"0").unwrap()),
                    ArrayElement::Real(Real::new(b"-0.4").unwrap()),
                ])),
            },
            DicionaryEntry {
                key: Name::new("Count").unwrap(),
                value: DictionaryValue::Integer(Integer::new(b"+2").unwrap()),
            },
        ])),
        ArrayElement::HexadecimalString(HexadecimalString::new(vec![
            HexadecimalChar::new(b"4A").unwrap(),
            HexadecimalChar::new(b"6F").unwrap(),
            HexadecimalChar::new(b"68").unwrap(),
            HexadecimalChar::new(b"6E").unwrap(),
        ])),
        ArrayElement::Array(Array::new(vec![
            ArrayElement::Integer(Integer::new(b"1").unwrap()),
            ArrayElement::Integer(Integer::new(b"2").unwrap()),
            ArrayElement::Integer(Integer::new(b"3").unwrap()),
            ArrayElement::Array(Array::new(vec![
                ArrayElement::Integer(Integer::new(b"76").unwrap()),
                ArrayElement::LiteralString(LiteralString::new(vec![
                    LiteralChar::Ascii(Ascii::new(b'F')),
                    LiteralChar::EscapeSequence(EscapeSequence::RightParenthesis),
                    LiteralChar::EscapeSequence(EscapeSequence::CarriageReturn),
                ])),
            ])),
        ])),
    ]);

    assert_eq!(
        array.as_bytes(),
        b"[42 true /TestName null 3.14 (ABC\\tD\n) <</Elements [0 -0.4] /Count +2>> <4A6F686E> [1 2 3 [76 (F\\)\\r)]]]".to_vec()
    );
}

#[test]
fn empty_array_renders_bare_brackets() {
    assert_eq!(Array::new(vec![]).as_bytes(), b"[]".to_vec());
}

#[test]
fn should_create_dicionary_and_return_bytes() {
    let dicionary = Dicionary::new(vec![
        DicionaryEntry {
            key: Name::new("Key1").unwrap(),
            value: DictionaryValue::Integer(Integer::new(b"42").unwrap()),
        },
        DicionaryEntry {
            key: Name::new("Key2").unwrap(),
            value: DictionaryValue::Integer(Integer::new(b"100").unwrap()),
        },
    ]);

    let bytes = dicionary.as_bytes();
    let expected_bytes = b"<</Key1 42 /Key2 100>>";

    assert_eq!(bytes, expected_bytes.to_vec());
}

#[test]
fn dicionary_lets_the_last_duplicate_key_win() {
    let dicionary = Dicionary::new(vec![
        DicionaryEntry {
            key: Name::new("Key").unwrap(),
            value: DictionaryValue::Integer(Integer::new(b"1").unwrap()),
        },
        DicionaryEntry {
            key: Name::new("Other").unwrap(),
            value: DictionaryValue::Integer(Integer::new(b"7").unwrap()),
        },
        DicionaryEntry {
            key: Name::new("Key").unwrap(),
            value: DictionaryValue::Integer(Integer::new(b"2").unwrap()),
        },
    ]);

    assert_eq!(dicionary.entries().len(), 2);
    let key = Name::new("Key").unwrap();
    assert!(dicionary.has(&key));
    match dicionary.get(&key) {
        Some(DictionaryValue::Integer(i)) => assert_eq!(i.as_bytes(), b"2"),
        other => panic!("unexpected entry: {:?}", other),
    }
    assert_eq!(dicionary.as_bytes(), b"<</Key 2 /Other 7>>".to_vec());

    let missing = Name::new("Absent").unwrap();
    assert!(!dicionary.has(&missing));
    assert!(dicionary.get(&missing).is_none());
}

#[test]
fn object_should_equal_when_number_and_generation_are_equal() {
    let obj1 = Object::new(1, 0, DirectObject::Null(Null::new()));
    let obj2 = Object::new(1, 0, DirectObject::Null(Null::new()));
    assert_eq!(obj1, obj2);
}

#[test]
fn object_should_not_equal_when_number_or_generation_are_different() {
    let obj1 = Object::new(1, 0, DirectObject::Null(Null::new()));
    let obj2 = Object::new(2, 0, DirectObject::Null(Null::new()));
    let obj3 = Object::new(1, 1, DirectObject::Null(Null::new()));
    assert_ne!(obj1, obj2);
    assert_ne!(obj1, obj3);
}

#[test]
fn object_equality_ignores_the_carried_value() {
    let a = Object::new(1, 0, DirectObject::Boolean(Boolean::new(true))).unwrap();
    let b = Object::new(1, 0, DirectObject::Integer(Integer::new(b"42").unwrap())).unwrap();
    assert_eq!(a, b);
}

#[test]
fn object_rejects_number_zero() {
    let r = Object::new(0, 3, DirectObject::Null(Null::new()));
    assert_eq!(r.unwrap_err(), redactor::error::PdfError::ZeroObjectNumber);
}

#[test]
fn object_renders_its_frame() {
    let obj = Object::new(1, 0, DirectObject::Null(Null::new())).unwrap();
    assert_eq!(obj.as_bytes(), b"1 0 obj\nnull\nendobj".to_vec());
    assert_eq!(*obj.number(), 1);
    assert_eq!(*obj.generation(), 0);
}

#[test]
fn reference_should_equal_when_number_and_generation_are_equal() {
    let ref1 = Reference::new(1, 0);
    let ref2 = Reference::new(1, 0);

    assert_eq!(ref1, ref2);
}

#[test]
fn reference_should_not_equal_when_number_or_generation_are_different() {
    let ref1 = Reference::new(1, 0);
    let ref2 = Reference::new(2, 0);
    let ref3 = Reference::new(1, 1);

    assert_ne!(ref1, ref2);
    assert_ne!(ref1, ref3);
}

#[test]
fn should_return_valid_bytes() {
    let indirect_reference = Reference::new(1, 0);
    let expected_bytes = b"1 0 R".to_vec();

    assert_eq!(indirect_reference.as_bytes(), expected_bytes);
}

#[test]
fn literal_string_renders_escape_sequences() {
    let s = LiteralString::new(vec![
        LiteralChar::Ascii(Ascii::new(b'X')),
        LiteralChar::EscapeSequence(EscapeSequence::LineFeed),
        LiteralChar::EscapeSequence(EscapeSequence::Backspace),
        LiteralChar::EscapeSequence(EscapeSequence::FormFeed),
        LiteralChar::EscapeSequence(EscapeSequence::LeftParenthesis),
        LiteralChar::EscapeSequence(EscapeSequence::Backslash),
        LiteralChar::EscapeSequence(EscapeSequence::Empty),
        LiteralChar::EscapeSequence(EscapeSequence::CharacterCode(
            redactor::value::CharacterCode::new(65),
        )),
    ]);
    assert_eq!(s.as_bytes(), b"(X\\n\\b\\f\\(\\\\\\\\065)".to_vec());
    assert_eq!(s.chars().len(), 8);
}

#[test]
fn hexadecimal_string_keeps_its_digit_pairs() {
    let s = HexadecimalString::new(vec![
        HexadecimalChar::new(b"4A").unwrap(),
        HexadecimalChar::new(b"6f").unwrap(),
    ]);
    assert_eq!(s.as_bytes(), b"<4A6f>".to_vec());
    assert_eq!(s.chars().len(), 2);
    assert!(HexadecimalChar::new(b"4G").is_err());
}

#[test]
fn stream_renders_dictionary_and_raw_content() {
    let dict = Dicionary::new(vec![DicionaryEntry {
        key: Name::new("Length").unwrap(),
        value: DictionaryValue::Integer(Integer::new(b"5").unwrap()),
    }]);
    let stream = Stream::new(dict, b"hello".to_vec());
    assert_eq!(
        stream.as_bytes(),
        b"<</Length 5>>\nstream\nhello\nendstream".to_vec()
    );
    assert_eq!(stream.content(), &b"hello".to_vec());
}
