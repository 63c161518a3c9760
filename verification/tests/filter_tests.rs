//! Tests of the ASCIIHexDecode codec and the `/Filter` dictionary
//! entries.

use redactor::filter::AsciiHexDecode;
use redactor::object::stream::filter::{Filter, FilterName, FilterValue};
use redactor::object::stream::length::Length;
use redactor::object::stream::DecodeParam;
use redactor::object::{Integer, Name};

#[test]
fn should_decode_ascii_hex_encoded_data() {
    let filter = AsciiHexDecode;

    let data = b"48656C6C6F20576F726C6421";

    let decoded = filter.decode(data).unwrap();

    assert_eq!(decoded, &[0x48, 0x65, 0x6C, 0x6C, 0x6F, 0x20, 0x57, 0x6F, 0x72, 0x6C, 0x64, 0x21]);
}

#[test]
fn should_encode_data_to_ascii_hex() {
    let filter = AsciiHexDecode;

    let data = &[0x48, 0x65, 0x6C, 0x6C, 0x6F, 0x20, 0x57, 0x6F, 0x72, 0x6C, 0x64, 0x21];

    let encoded = filter.encode(data).unwrap();

    assert_eq!(encoded, b"48656C6C6F20576F726C6421");
}

#[test]
fn should_ignore_whitespaces_or_none_hex_characters_when_decoding() {
    let filter = AsciiHexDecode;

    let data = b"48 65 6C 6C 6F 20 57 6F 72 6C 64 21";

    let decoded = filter.decode(data).unwrap();

    assert_eq!(decoded, &[0x48, 0x65, 0x6C, 0x6C, 0x6F, 0x20, 0x57, 0x6F, 0x72, 0x6C, 0x64, 0x21]);

    let data = b"48G65H6C6I6F2J057K6F7L2M6C6N6421";

    let decoded = filter.decode(data).unwrap();

    assert_eq!(decoded, &[0x48, 0x65, 0x6C, 0x66, 0xF2, 0x05, 0x76, 0xF7, 0x26, 0xC6, 0x64, 0x21]);
}

#[test]
fn decode_reads_spaced_digits_like_digits_alone() {
    let filter = AsciiHexDecode;
    assert_eq!(filter.decode(b"48 65 6C").unwrap(), vec![0x48, 0x65, 0x6C]);
    assert_eq!(filter.decode(b"4 8 65 6C").unwrap(), filter.decode(b"4865 6C").unwrap());
}

#[test]
fn decode_pads_a_final_odd_digit_with_zero() {
    let filter = AsciiHexDecode;
    assert_eq!(filter.decode(b"486").unwrap(), vec![0x48, 0x60]);
    assert_eq!(filter.decode(b"4").unwrap(), vec![0x40]);
    assert_eq!(filter.decode(b"").unwrap(), Vec::<u8>::new());
}

#[test]
fn encode_after_decode_uppercases_even_hex_input() {
    let filter = AsciiHexDecode;
    let data = b"4a6f686e";
    let round = filter.encode(&filter.decode(data).unwrap()).unwrap();
    assert_eq!(round, b"4A6F686E".to_vec());

    let data = b"4A6F686E";
    let round = filter.encode(&filter.decode(data).unwrap()).unwrap();
    assert_eq!(round, b"4A6F686E".to_vec());
}

#[test]
fn should_filter_returns_valid_name_object() {
    let filter = Filter::new(FilterValue::Name(FilterName::FlateDecode));

    assert_eq!(filter.name_object(), &Name::new("Filter").unwrap());
}

#[test]
fn should_filter_checks_value_type() {
    let filter = Filter::new(FilterValue::Name(FilterName::FlateDecode));

    assert_eq!(filter.is_name(), true);
    assert_eq!(filter.is_array(), false);

    let filter = Filter::new(FilterValue::Array(vec![
        FilterName::ASCII85Decode,
        FilterName::FlateDecode,
    ]));

    assert_eq!(filter.is_name(), false);
    assert_eq!(filter.is_array(), true);
}

#[test]
fn should_filter_returns_valid_bytes() {
    let filter = Filter::new(FilterValue::Name(FilterName::FlateDecode));

    assert_eq!(filter.as_bytes(), b"/Filter /FlateDecode".to_vec());

    let filter = Filter::new(FilterValue::Array(vec![
        FilterName::ASCII85Decode,
        FilterName::FlateDecode,
    ]));

    assert_eq!(filter.as_bytes(), b"/Filter [/ASCII85Decode /FlateDecode]".to_vec());
}

#[test]
fn should_filter_name_returns_valid_bytes() {
    assert_eq!(FilterName::ASCIIHexDecode.as_bytes(), b"/ASCIIHexDecode".to_vec());
    assert_eq!(FilterName::DCTDecode.as_bytes(), b"/DCTDecode".to_vec());
    assert_eq!(FilterName::FlateDecode.as_bytes(), b"/FlateDecode".to_vec());
    assert_eq!(FilterName::LZWDecode.as_bytes(), b"/LZWDecode".to_vec());
    assert_eq!(FilterName::RunLengthDecode.as_bytes(), b"/RunLengthDecode".to_vec());
    assert_eq!(FilterName::CCITTFaxDecode.as_bytes(), b"/CCITTFaxDecode".to_vec());
    assert_eq!(FilterName::JBIG2Decode.as_bytes(), b"/JBIG2Decode".to_vec());
    assert_eq!(FilterName::DCTDecode.as_bytes(), b"/DCTDecode".to_vec());
    assert_eq!(FilterName::JPXDecode.as_bytes(), b"/JPXDecode".to_vec());
    assert_eq!(FilterName::Crypt.as_bytes(), b"/Crypt".to_vec());
}

#[test]
fn should_length_returns_valid_name_and_value() {
    let length = Length::new(Integer::new(b"123").unwrap());

    assert_eq!(length.name_object().as_bytes(), b"/Length".to_vec());
    assert_eq!(length.integer_object().as_bytes(), b"123");
    assert_eq!(length.as_u32(), 123);
}

#[test]
fn length_renders_its_entry() {
    let length = Length::new(Integer::new(b"123").unwrap());
    assert_eq!(length.as_bytes(), b"/Length 123".to_vec());
}

#[test]
fn decode_parms_uses_its_standard_key() {
    assert_eq!(DecodeParam::name_object().as_str(), "DecodeParms");
}
