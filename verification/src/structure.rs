//! The structural elements of a PDF file: header, version, byte marker,
//! end-of-file marker, cross-reference table, and trailer.

pub mod byte_marker;
pub mod comment;
pub mod cross_reference;
pub mod eof;
pub mod trailer;
pub mod header;
pub mod version;

pub use byte_marker::ByteMarker;
pub use comment::StructuralComment;
pub use cross_reference::{CrossReference, CrossReferenceSection, CrossReferenceTable};
pub use eof::EOF;
pub use trailer::Trailer;
pub use header::Header;
pub use version::Version;
