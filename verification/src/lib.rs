//! A verified codec for PNG chunks: the length-prefixed, typed, CRC-checksummed
//! records that make up a PNG file.
//!
//! [`chunk_type::ChunkType`] models the 4-byte ASCII type code and its bit
//! flags; [`chunk::Chunk`] models a whole record with byte-exact parsing and
//! serialization; [`error::PngError`] enumerates the ways either can fail.

pub mod big_endian;
pub mod chunk;
pub mod chunk_type;
pub mod crc32;
pub mod error;
pub mod text;
