//! Classification of PNG chunk types.
//!
//! A chunk of a PNG stream is named by four bytes. Bit 5 of each byte, the
//! bit that separates upper-case from lower-case ASCII letters, carries one
//! property of the chunk. This crate holds the four-byte name as a value
//! type, the names of the registered chunks, the four predicates that read
//! the properties, and a rendering of a name for diagnostics.

pub mod chunk;
pub mod diagnostic;
