//! Chunk types of the PNG container format.
//!
//! A chunk type is the four-byte tag that stands before a chunk's data. It
//! names the chunk and, through the case of its four letters, carries four
//! flags. This crate reads a chunk type from text or from raw bytes, tells
//! the flags, and decides whether the tag is well-formed.

pub mod ascii;
pub mod chunk_type;
pub mod error;
pub mod text;

pub use chunk_type::ChunkType;
pub use error::ChunkTypeError;
