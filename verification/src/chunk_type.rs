//! The 4-byte ASCII code that identifies a chunk's purpose, and the bit flags
//! the PNG format packs into it.

use crate::error::PngError;
use crate::text::{chars_of_bytes, lemma_ascii_bytes_decode, string_from_utf8};
use vstd::prelude::*;
use vstd::utf8::{encode_utf8, encode_utf8_decode_utf8};

verus! {

/// True of a byte allowed in a chunk type code: an ASCII letter.
pub open spec fn is_type_byte(b: u8) -> bool {
    (65 <= b && b <= 90) || (97 <= b && b <= 122)
}

/// True of the byte sequences that form a chunk type code: exactly four ASCII
/// letters.
pub open spec fn type_bytes_ok(s: Seq<u8>) -> bool {
    s.len() == 4 && (forall|i: int| 0 <= i < 4 ==> is_type_byte(#[trigger] s[i]))
}

/// The chunk type code: four ASCII letters whose case bits carry the
/// critical, public, reserved and safe-to-copy flags.
#[derive(Clone, Copy, Debug)]
pub struct ChunkType {
    chunk_type_bytes: [u8; 4],
}

impl View for ChunkType {
    type V = Seq<u8>;

    closed spec fn view(&self) -> Seq<u8> {
        self.chunk_type_bytes@
    }
}

fn letter(b: u8) -> (r: bool)
    ensures
        r == is_type_byte(b),
{
    (65 <= b && b <= 90) || (97 <= b && b <= 122)
}

impl ChunkType {
    /// A chunk type is well formed when its four bytes are ASCII letters;
    /// both constructors refuse anything else.
    pub open spec fn wf(self) -> bool {
        type_bytes_ok(self@)
    }

    /// Validity: only the reserved bit is required to be clear.
    pub open spec fn spec_is_valid(self) -> bool {
        self.spec_is_reserved_bit_valid()
    }

    /// Critical chunks have bit 5 of byte 0 clear (an upper-case first letter).
    pub open spec fn spec_is_critical(self) -> bool {
        self@[0] & 0x20 == 0
    }

    /// Public chunks have bit 5 of byte 1 clear.
    pub open spec fn spec_is_public(self) -> bool {
        self@[1] & 0x20 == 0
    }

    /// The reserved bit is valid when bit 5 of byte 2 is clear.
    pub open spec fn spec_is_reserved_bit_valid(self) -> bool {
        self@[2] & 0x20 == 0
    }

    /// Safe-to-copy chunks have bit 5 of byte 3 set.
    pub open spec fn spec_is_safe_to_copy(self) -> bool {
        self@[3] & 0x20 != 0
    }

    /// Build a chunk type from its four raw bytes, refusing any byte that is
    /// not an ASCII letter.
    pub fn from_bytes(value: [u8; 4]) -> (r: Result<ChunkType, PngError>)
        ensures
            match r {
                Ok(t) => type_bytes_ok(value@) && t@ == value@ && t.wf(),
                Err(e) => e == PngError::InvalidChunkType && !type_bytes_ok(value@),
            },
    {
        if letter(value[0]) && letter(value[1]) && letter(value[2]) && letter(value[3]) {
            Ok(ChunkType { chunk_type_bytes: value })
        } else {
            Err(PngError::InvalidChunkType)
        }
    }

    /// Build a chunk type from a 4-byte text code, refusing any character
    /// that is not an ASCII letter.
    pub fn from_text(s: &str) -> (r: Result<ChunkType, PngError>)
        requires
            encode_utf8(s@).len() == 4,
        ensures
            match r {
                Ok(t) => type_bytes_ok(encode_utf8(s@)) && t@ == encode_utf8(s@) && t.wf(),
                Err(e) => e == PngError::InvalidChunkType && !type_bytes_ok(encode_utf8(s@)),
            },
    {
        let bytes: &[u8] = s.as_bytes();
        let arr = [bytes[0], bytes[1], bytes[2], bytes[3]];
        proof {
            assert(arr@ =~= encode_utf8(s@));
        }
        ChunkType::from_bytes(arr)
    }

    /// The four bytes of the type code.
    pub fn bytes(&self) -> (r: [u8; 4])
        ensures
            r@ == self@,
    {
        self.chunk_type_bytes
    }

    /// The bytes of the type code in order, for callers that walk them one by
    /// one.
    pub fn iter(&self) -> (r: Vec<u8>)
        ensures
            r@ == self@,
    {
        let mut v: Vec<u8> = Vec::new();
        v.push(self.chunk_type_bytes[0]);
        v.push(self.chunk_type_bytes[1]);
        v.push(self.chunk_type_bytes[2]);
        v.push(self.chunk_type_bytes[3]);
        proof {
            assert(v@ =~= self@);
        }
        v
    }

    /// Whether the type code is valid: the reserved-bit rule is the only gate.
    pub fn is_valid(&self) -> (r: bool)
        ensures
            r == self.spec_is_valid(),
    {
        self.is_reserved_bit_valid()
    }

    /// Whether the chunk is critical to displaying the image.
    pub fn is_critical(&self) -> (r: bool)
        ensures
            r == self.spec_is_critical(),
    {
        self.chunk_type_bytes[0] & 32 == 0
    }

    /// Whether the chunk type is a public, registered one.
    pub fn is_public(&self) -> (r: bool)
        ensures
            r == self.spec_is_public(),
    {
        self.chunk_type_bytes[1] & 32 == 0
    }

    /// Whether the reserved bit is clear, as the format requires.
    pub fn is_reserved_bit_valid(&self) -> (r: bool)
        ensures
            r == self.spec_is_reserved_bit_valid(),
    {
        self.chunk_type_bytes[2] & 32 == 0
    }

    /// Whether an editor that does not recognise the chunk may copy it.
    pub fn is_safe_to_copy(&self) -> (r: bool)
        ensures
            r == self.spec_is_safe_to_copy(),
    {
        self.chunk_type_bytes[3] & 32 != 0
    }

    /// The type code rendered as text, one character per byte.
    pub fn to_text(&self) -> (r: String)
        requires
            self.wf(),
        ensures
            r@ == chars_of_bytes(self@),
            r@.len() == 4,
    {
        let v = self.iter();
        proof {
            lemma_ascii_bytes_decode(v@);
        }
        let s = string_from_utf8(v);
        let out = s.unwrap();
        proof {
            encode_utf8_decode_utf8(out@);
        }
        out
    }
}

impl PartialEq for ChunkType {
    /// Two chunk types are equal exactly when their four bytes are equal.
    fn eq(&self, other: &ChunkType) -> (r: bool) {
        let r = self.chunk_type_bytes[0] == other.chunk_type_bytes[0]
            && self.chunk_type_bytes[1] == other.chunk_type_bytes[1]
            && self.chunk_type_bytes[2] == other.chunk_type_bytes[2]
            && self.chunk_type_bytes[3] == other.chunk_type_bytes[3];
        proof {
            if r {
                assert(self.chunk_type_bytes@ =~= other.chunk_type_bytes@);
            }
        }
        r
    }
}

impl vstd::std_specs::cmp::PartialEqSpecImpl for ChunkType {
    open spec fn obeys_eq_spec() -> bool {
        true
    }

    open spec fn eq_spec(&self, other: &ChunkType) -> bool {
        self@ == other@
    }
}

/// Validity of a chunk type depends only on bit 5 of byte 2: two type codes
/// that agree there agree on `is_valid`, whatever their other bytes hold.
pub proof fn lemma_is_valid_depends_only_on_reserved_bit(a: ChunkType, b: ChunkType)
    requires
        a@[2] & 0x20 == b@[2] & 0x20,
    ensures
        a.spec_is_valid() == b.spec_is_valid(),
{
}

} // verus!
