//! Object model and structural framework of the PDF file format: the
//! primitive and composite object kinds, their validation and byte-exact
//! serialization, and the cross-reference indexing that locates indirect
//! objects inside a file.

pub mod ascii;
pub mod byte_source;
pub mod check;
pub mod error;
pub mod filter;
pub mod object;
pub mod redactor;
pub mod render;
pub mod specification;
pub mod structure;
pub mod token;
pub mod value;

pub use crate::redactor::Redactor;
