//! Tests of the byte source, the redactor entry point, and the object
//! stream bookkeeping.

use redactor::byte_source::{ByteSource, MemoryByteSource};
use redactor::object::stream::{DecodeParam, StreamDictionary};
use redactor::object::{Dicionary, DirectObject, Integer, ObjectStream, ObjectStreamIndex};
use redactor::Redactor;

#[test]
fn memory_byte_source_slices_its_data() {
    let source = MemoryByteSource::new(b"hello world".to_vec());
    assert_eq!(source.len(), 11);
    assert_eq!(source.slice(0..5), b"hello");
    assert_eq!(source.slice(6..11), b"world");
    assert_eq!(source.slice(3..3), b"");
}

#[test]
fn redactor_counts_its_content() {
    let redactor = Redactor::new();
    assert_eq!(redactor.content_len(), 0);

    let redactor = Redactor::from_bytes(b"%PDF-1.7\n".to_vec());
    assert_eq!(redactor.content_len(), 9);

    let redactor = Redactor::default();
    assert_eq!(redactor.content_len(), 0);
}

#[test]
fn object_stream_keeps_indices_and_objects() {
    let index = ObjectStreamIndex::new(12, 80);
    assert_eq!(*index.object_number(), 12);
    assert_eq!(*index.offset(), 80);

    let stream = ObjectStream::new(
        Dicionary::new(vec![]),
        vec![ObjectStreamIndex::new(12, 80), ObjectStreamIndex::new(13, 95)],
        vec![DirectObject::Integer(Integer::new(b"5").unwrap())],
    );
    assert_eq!(stream.indices().len(), 2);
    assert_eq!(*stream.indices()[1].object_number(), 13);
    assert_eq!(stream.objects().len(), 1);
}

#[test]
fn stream_dictionary_keeps_its_entries() {
    let dict = StreamDictionary::new(42, None, None);
    assert_eq!(dict.length(), 42);
    assert!(dict.filter().is_none());
    assert!(dict.decode_parms().is_none());

    let parms = DecodeParam::Dicionary(Dicionary::new(vec![]));
    let dict = StreamDictionary::new(0, None, Some(parms));
    assert!(dict.decode_parms().is_some());
}
