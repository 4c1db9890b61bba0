//! The error type shared by chunk-type validation, chunk parsing and payload
//! text decoding.

use vstd::prelude::*;

verus! {

/// Everything that can go wrong while building or parsing a chunk.
#[derive(Clone, Copy, Debug, PartialEq, Eq, Structural)]
pub enum PngError {
    /// A chunk-type byte is outside `A`-`Z` and `a`-`z`.
    InvalidChunkType,
    /// The checksum read from a buffer differs from the one recomputed over
    /// the type and payload bytes.
    ChecksumMismatch,
    /// The length read from a buffer differs from the recomputed payload
    /// length.
    LengthMismatch,
    /// The buffer is too short to hold the record it claims to hold.
    BufferTooShort,
    /// The payload is not valid UTF-8, so it cannot be rendered as text.
    InvalidUtf8,
}

impl PngError {
    /// A stable, user-facing description of the error.
    pub fn message(&self) -> (r: &'static str)
        ensures
            *self is InvalidChunkType ==> r@ == "Invalid chunk payload"@,
            *self is ChecksumMismatch ==> r@ == "Incoming check does not match computed checksum"@,
            *self is LengthMismatch ==> r@ == "Incoming length does not match computed length"@,
            *self is BufferTooShort ==> r@ == "Chunk buffer is too short"@,
            *self is InvalidUtf8 ==> r@ == "Chunk payload is not valid UTF-8"@,
    {
        match self {
            PngError::InvalidChunkType => "Invalid chunk payload",
            PngError::ChecksumMismatch => "Incoming check does not match computed checksum",
            PngError::LengthMismatch => "Incoming length does not match computed length",
            PngError::BufferTooShort => "Chunk buffer is too short",
            PngError::InvalidUtf8 => "Chunk payload is not valid UTF-8",
        }
    }
}

} // verus!
