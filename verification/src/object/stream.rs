//! The PDF Stream object: a dictionary paired with raw content bytes.
//! Keeping the dictionary's `/Length` equal to the content length is the
//! caller's responsibility, not the constructor's.

pub mod filter;
pub mod length;

use vstd::prelude::*;

use crate::ascii::{LINE_FEED, LOWER_A, LOWER_D, LOWER_E, LOWER_M, LOWER_N, LOWER_R, LOWER_S,
    LOWER_T};
use crate::object::dicionary::{spec_dicionary_bytes, Dicionary};
use crate::object::name::{literal_name, Name};
use crate::render::extend_bytes;

verus! {

/// The bytes between a stream's dictionary and its content:
/// `\nstream\n`.
pub open spec fn stream_begin_bytes() -> Seq<u8> {
    seq![LINE_FEED, LOWER_S, LOWER_T, LOWER_R, LOWER_E, LOWER_A, LOWER_M, LINE_FEED]
}

/// The bytes that close a stream: `\nendstream`.
pub open spec fn stream_end_bytes() -> Seq<u8> {
    seq![LINE_FEED, LOWER_E, LOWER_N, LOWER_D, LOWER_S, LOWER_T, LOWER_R, LOWER_E, LOWER_A,
        LOWER_M]
}

/// PDF Stream object representation.
#[derive(Debug)]
pub struct Stream {
    /// The dictionary associated with the Stream.
    pub dictionary: Dicionary,
    /// The content bytes of the Stream.
    pub content: Vec<u8>,
}

/// The byte rendering of a Stream: its dictionary, then the content
/// bytes between the `stream` and `endstream` keywords.
pub open spec fn spec_stream_bytes(s: Stream) -> Seq<u8> {
    spec_dicionary_bytes(s.dictionary) + stream_begin_bytes() + s.content@ + stream_end_bytes()
}

impl Stream {
    /// Creates a new `Stream` from the given dictionary and content.
    pub fn new(dictionary: Dicionary, content: Vec<u8>) -> (r: Self)
        ensures
            r.dictionary == dictionary,
            r.content == content,
    {
        Self { dictionary, content }
    }

    /// Returns the dictionary of the Stream.
    pub fn dictionary(&self) -> (r: &Dicionary)
        ensures
            r == &self.dictionary,
    {
        &self.dictionary
    }

    /// Returns the content bytes of the Stream.
    pub fn content(&self) -> (r: &Vec<u8>)
        ensures
            r == &self.content,
    {
        &self.content
    }

    /// Returns the byte rendering of the Stream.
    pub fn as_bytes(&self) -> (r: Vec<u8>)
        ensures
            r@ == spec_stream_bytes(*self),
    {
        let mut out = self.dictionary.as_bytes();
        out.push(LINE_FEED);
        out.push(LOWER_S);
        out.push(LOWER_T);
        out.push(LOWER_R);
        out.push(LOWER_E);
        out.push(LOWER_A);
        out.push(LOWER_M);
        out.push(LINE_FEED);
        extend_bytes(&mut out, self.content.as_slice());
        out.push(LINE_FEED);
        out.push(LOWER_E);
        out.push(LOWER_N);
        out.push(LOWER_D);
        out.push(LOWER_S);
        out.push(LOWER_T);
        out.push(LOWER_R);
        out.push(LOWER_E);
        out.push(LOWER_A);
        out.push(LOWER_M);
        proof {
            assert(out@ =~= spec_stream_bytes(*self));
        }
        out
    }
}

/// PDF Stream DecodeParms representation: the parameter dictionaries
/// that parallel a `/Filter` entry, one per chained filter.
#[derive(Debug)]
pub enum DecodeParam {
    /// A single Dicionary as DecodeParms.
    Dicionary(Dicionary),
    /// An array of Dicionaries as DecodeParms, aligned with the filter
    /// array by position.
    Array(Vec<Dicionary>),
}

impl DecodeParam {
    /// Returns the Name of the DecodeParms entry.
    pub fn name_object() -> (r: Name)
        ensures
            r@ == "DecodeParms"@,
    {
        proof {
            reveal_strlit("DecodeParms");
        }
        literal_name("DecodeParms")
    }
}

/// The `/Length`, `/Filter` and `/DecodeParms` entries a stream
/// dictionary carries.
#[derive(Debug)]
pub struct StreamDictionary {
    /// The `/Length` entry: the byte count of the stream content.
    pub length: u32,
    /// The optional `/Filter` entry.
    pub filter: Option<filter::Filter>,
    /// The optional `/DecodeParms` entry.
    pub decode_parms: Option<DecodeParam>,
}

impl StreamDictionary {
    /// Creates a new `StreamDictionary` from its entries.
    pub fn new(length: u32, filter: Option<filter::Filter>, decode_parms: Option<DecodeParam>) -> (r:
        Self)
        ensures
            r.length == length,
            r.filter == filter,
            r.decode_parms == decode_parms,
    {
        Self { length, filter, decode_parms }
    }

    /// Returns the `/Length` entry.
    pub fn length(&self) -> (r: u32)
        ensures
            r == self.length,
    {
        self.length
    }

    /// Returns the `/Filter` entry.
    pub fn filter(&self) -> (r: &Option<filter::Filter>)
        ensures
            r == &self.filter,
    {
        &self.filter
    }

    /// Returns the `/DecodeParms` entry.
    pub fn decode_parms(&self) -> (r: &Option<DecodeParam>)
        ensures
            r == &self.decode_parms,
    {
        &self.decode_parms
    }
}

} // verus!
