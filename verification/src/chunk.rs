//! One whole chunk record: length, type code, payload and checksum, with
//! byte-exact serialization and parsing.

use crate::big_endian::{
    be32_val, lemma_be32_val_bytes, lemma_u32_be_bytes_val, u32_be_bytes, u32_from_be, u32_to_be,
};
use crate::chunk_type::{type_bytes_ok, ChunkType};
use crate::crc32::{crc32_of, crc32_type_and_data};
use crate::error::PngError;
use crate::text::string_from_utf8;
use vstd::prelude::*;
use vstd::slice::{slice_subrange, slice_to_vec};
use vstd::utf8::{decode_utf8, encode_utf8_decode_utf8, valid_utf8};

verus! {

/// A chunk record. The serialized layout is: 4-byte big-endian payload
/// length, 4 type bytes, the payload, then a 4-byte big-endian CRC-32 of the
/// type and payload bytes.
pub struct Chunk {
    length: u32,
    chunk_type: ChunkType,
    data: Vec<u8>,
    checksum: u32,
}

/// The bytes a chunk with the given fields serializes to.
pub open spec fn spec_serialize(length: u32, t: Seq<u8>, d: Seq<u8>, ck: u32) -> Seq<u8> {
    u32_be_bytes(length) + t + d + u32_be_bytes(ck)
}

/// What parsing a byte sequence yields: the length, type bytes, payload and
/// stored checksum of the record it holds, or the first error the layout
/// rules give. A buffer too short for the fields it claims is refused before
/// anything is sliced; a checksum that does not match the one recomputed over
/// the type and payload bytes is refused last.
pub open spec fn spec_parse(bytes: Seq<u8>) -> Result<(u32, Seq<u8>, Seq<u8>, u32), PngError> {
    if bytes.len() < 8 {
        Err(PngError::BufferTooShort)
    } else if !type_bytes_ok(bytes.subrange(4, 8)) {
        Err(PngError::InvalidChunkType)
    } else {
        let length = be32_val(bytes.subrange(0, 4));
        if bytes.len() < 12 + length {
            Err(PngError::BufferTooShort)
        } else {
            let t = bytes.subrange(4, 8);
            let d = bytes.subrange(8, 8 + length);
            let stored = be32_val(bytes.subrange(8 + length, 12 + length));
            if stored != crc32_of(t + d) {
                Err(PngError::ChecksumMismatch)
            } else {
                Ok((length, t, d, stored))
            }
        }
    }
}

fn read_4_bytes(slice: &[u8], start: usize, end: usize) -> (r: [u8; 4])
    requires
        start + 4 == end,
        end <= slice@.len(),
    ensures
        r@ == slice@.subrange(start as int, end as int),
{
    let r = [slice[start], slice[start + 1], slice[start + 2], slice[start + 3]];
    proof {
        assert(r@ =~= slice@.subrange(start as int, end as int));
    }
    r
}

impl Chunk {
    /// The payload length stored in the record.
    pub closed spec fn spec_length(self) -> u32 {
        self.length
    }

    /// The chunk's type code.
    pub closed spec fn spec_chunk_type(self) -> ChunkType {
        self.chunk_type
    }

    /// The four bytes of the chunk's type code.
    pub open spec fn type_bytes(self) -> Seq<u8> {
        self.spec_chunk_type()@
    }

    /// The payload bytes.
    pub closed spec fn payload(self) -> Seq<u8> {
        self.data@
    }

    /// The checksum stored in the record.
    pub closed spec fn spec_crc(self) -> u32 {
        self.checksum
    }

    /// A chunk is well formed when its length equals its payload's byte
    /// count, its type code is four ASCII letters, and its checksum is the
    /// CRC-32 of the type bytes followed by the payload bytes.
    pub open spec fn wf(self) -> bool {
        &&& self.spec_length() == self.payload().len()
        &&& type_bytes_ok(self.type_bytes())
        &&& self.spec_crc() == crc32_of(self.type_bytes() + self.payload())
    }

    /// Build a chunk from a type code and a payload, computing the checksum
    /// over the type bytes followed by the payload bytes.
    pub fn new(chunk_type: ChunkType, data: Vec<u8>) -> (c: Chunk)
        requires
            chunk_type.wf(),
            data@.len() <= u32::MAX,
        ensures
            c.wf(),
            c.spec_chunk_type() == chunk_type,
            c.spec_length() == data@.len(),
            c.payload() == data@,
            c.spec_crc() == crc32_of(chunk_type@ + data@),
    {
        let type_bytes = chunk_type.bytes();
        let checksum = crc32_type_and_data(&type_bytes, data.as_slice());
        let length = data.len() as u32;
        Chunk { length, chunk_type, data, checksum }
    }

    /// The whole record's size: the payload length plus the 12 bytes of the
    /// length, type and checksum fields.
    pub fn overall_length(&self) -> (r: u32)
        requires
            self.spec_length() + 12 <= u32::MAX,
        ensures
            r == self.spec_length() + 12,
    {
        self.length + 12
    }

    /// The payload length stored in the record.
    pub fn length(&self) -> (r: u32)
        ensures
            r == self.spec_length(),
    {
        self.length
    }

    /// The chunk's type code.
    pub fn chunk_type(&self) -> (r: &ChunkType)
        ensures
            *r == self.spec_chunk_type(),
    {
        &self.chunk_type
    }

    /// The payload bytes.
    pub fn data(&self) -> (r: &[u8])
        ensures
            r@ == self.payload(),
    {
        self.data.as_slice()
    }

    /// The checksum stored in the record.
    pub fn crc(&self) -> (r: u32)
        ensures
            r == self.spec_crc(),
    {
        self.checksum
    }

    /// The payload decoded as UTF-8 text; fails on any payload that is not
    /// valid UTF-8.
    pub fn data_as_string(&self) -> (r: Result<String, PngError>)
        ensures
            match r {
                Ok(s) => valid_utf8(self.payload()) && s@ == decode_utf8(self.payload()),
                Err(e) => e == PngError::InvalidUtf8 && !valid_utf8(self.payload()),
            },
    {
        let copy = slice_to_vec(self.data.as_slice());
        match string_from_utf8(copy) {
            Some(s) => {
                proof {
                    encode_utf8_decode_utf8(s@);
                }
                Ok(s)
            },
            None => Err(PngError::InvalidUtf8),
        }
    }

    /// Serialize the record: big-endian length, type bytes, payload,
    /// big-endian checksum.
    pub fn as_bytes(&self) -> (r: Vec<u8>)
        ensures
            r@ == spec_serialize(
                self.spec_length(),
                self.type_bytes(),
                self.payload(),
                self.spec_crc(),
            ),
    {
        let mut out: Vec<u8> = Vec::new();
        let len_bytes = u32_to_be(self.length);
        let type_bytes = self.chunk_type.bytes();
        let crc_bytes = u32_to_be(self.checksum);
        out.push(len_bytes[0]);
        out.push(len_bytes[1]);
        out.push(len_bytes[2]);
        out.push(len_bytes[3]);
        out.push(type_bytes[0]);
        out.push(type_bytes[1]);
        out.push(type_bytes[2]);
        out.push(type_bytes[3]);
        proof {
            assert(out@ =~= u32_be_bytes(self.length) + self.chunk_type@ + self.data@.subrange(
                0,
                0,
            ));
        }
        let mut i: usize = 0;
        while i < self.data.len()
            invariant
                i <= self.data@.len(),
                out@ == u32_be_bytes(self.length) + self.chunk_type@ + self.data@.subrange(
                    0,
                    i as int,
                ),
            decreases self.data@.len() - i,
        {
            out.push(self.data[i]);
            proof {
                assert(self.data@.subrange(0, i + 1 as int) =~= self.data@.subrange(0, i as int)
                    + seq![self.data@[i as int]]);
                assert(out@ =~= u32_be_bytes(self.length) + self.chunk_type@
                    + self.data@.subrange(0, i + 1 as int));
            }
            i = i + 1;
        }
        out.push(crc_bytes[0]);
        out.push(crc_bytes[1]);
        out.push(crc_bytes[2]);
        out.push(crc_bytes[3]);
        proof {
            assert(self.data@.subrange(0, self.data@.len() as int) =~= self.data@);
            assert(out@ =~= spec_serialize(
                self.spec_length(),
                self.type_bytes(),
                self.payload(),
                self.spec_crc(),
            ));
        }
        out
    }

    /// Parse one record out of a byte buffer laid out as the chunk format
    /// says; trailing bytes beyond the record are ignored. Succeeds if and
    /// only if the buffer holds the whole record, the type bytes are four
    /// ASCII letters, and the stored checksum matches the one recomputed
    /// over the type and payload bytes.
    pub fn parse(value: &[u8]) -> (r: Result<Chunk, PngError>)
        ensures
            (match spec_parse(value@) {
                Ok(m) => r matches Ok(c) && c.wf() && c.spec_length() == m.0 && c.type_bytes()
                    == m.1 && c.payload() == m.2 && c.spec_crc() == m.3,
                Err(me) => r matches Err(e) && e == me,
            }),
    {
        if value.len() < 8 {
            return Err(PngError::BufferTooShort);
        }
        let length_field = read_4_bytes(value, 0, 4);
        let length_u32 = u32_from_be(&length_field);
        let type_field = read_4_bytes(value, 4, 8);
        let chunk_type = match ChunkType::from_bytes(type_field) {
            Ok(t) => t,
            Err(e) => {
                return Err(e);
            },
        };
        let length = length_u32 as usize;
        if value.len() < 12 || length > value.len() - 12 {
            return Err(PngError::BufferTooShort);
        }
        let data = slice_to_vec(slice_subrange(value, 8, 8 + length));
        let stored_field = read_4_bytes(value, 8 + length, 12 + length);
        let stored = u32_from_be(&stored_field);
        let chunk = Chunk::new(chunk_type, data);
        if chunk.checksum != stored {
            return Err(PngError::ChecksumMismatch);
        }
        if chunk.length != length_u32 {
            return Err(PngError::LengthMismatch);
        }
        Ok(chunk)
    }
}

/// Checksum determinism: two well-formed chunks with the same type bytes and
/// the same payload carry the same checksum.
pub proof fn lemma_crc_deterministic(a: Chunk, b: Chunk)
    requires
        a.wf(),
        b.wf(),
        a.type_bytes() == b.type_bytes(),
        a.payload() == b.payload(),
    ensures
        a.spec_crc() == b.spec_crc(),
{
}

/// Round trip: parsing the serialization of a well-formed chunk succeeds and
/// recovers exactly its length, type bytes, payload and checksum.
pub proof fn lemma_round_trip(c: Chunk)
    requires
        c.wf(),
    ensures
        spec_parse(spec_serialize(c.spec_length(), c.type_bytes(), c.payload(), c.spec_crc()))
            == Ok::<(u32, Seq<u8>, Seq<u8>, u32), PngError>(
            (c.spec_length(), c.type_bytes(), c.payload(), c.spec_crc()),
        ),
{
    let bytes = spec_serialize(c.spec_length(), c.type_bytes(), c.payload(), c.spec_crc());
    let n = c.payload().len() as int;
    assert(bytes.len() == 12 + n);
    assert(bytes.subrange(0, 4) =~= u32_be_bytes(c.spec_length()));
    assert(bytes.subrange(4, 8) =~= c.type_bytes());
    lemma_u32_be_bytes_val(c.spec_length());
    assert(bytes.subrange(8, 8 + n) =~= c.payload());
    assert(bytes.subrange(8 + n, 12 + n) =~= u32_be_bytes(c.spec_crc()));
    lemma_u32_be_bytes_val(c.spec_crc());
}

/// Corruption detection: flipping any single bit of the checksum field of a
/// well-formed chunk's serialization makes parsing fail with
/// `ChecksumMismatch`.
pub proof fn lemma_checksum_corruption(c: Chunk, j: int, bit: u8)
    requires
        c.wf(),
        8 + c.payload().len() <= j < 12 + c.payload().len(),
        bit < 8,
    ensures
        ({
            let bytes = spec_serialize(c.spec_length(), c.type_bytes(), c.payload(), c.spec_crc());
            let corrupted = bytes.update(j, bytes[j] ^ (1u8 << bit));
            spec_parse(corrupted) == Err::<(u32, Seq<u8>, Seq<u8>, u32), PngError>(
                PngError::ChecksumMismatch,
            )
        }),
{
    let bytes = spec_serialize(c.spec_length(), c.type_bytes(), c.payload(), c.spec_crc());
    let n = c.payload().len() as int;
    let mask = 1u8 << bit;
    let b = bytes[j];
    let corrupted = bytes.update(j, b ^ mask);
    assert(mask != 0) by (bit_vector)
        requires
            mask == 1u8 << bit,
            bit < 8,
    ;
    assert(b ^ mask != b) by (bit_vector)
        requires
            mask != 0,
    ;
    assert(corrupted.len() == 12 + n);
    assert(corrupted.subrange(0, 4) =~= u32_be_bytes(c.spec_length()));
    assert(corrupted.subrange(4, 8) =~= c.type_bytes());
    lemma_u32_be_bytes_val(c.spec_length());
    assert(corrupted.subrange(8, 8 + n) =~= c.payload());
    let cs = corrupted.subrange(8 + n, 12 + n);
    let orig_cs = bytes.subrange(8 + n, 12 + n);
    assert(orig_cs =~= u32_be_bytes(c.spec_crc()));
    assert(cs[j - (8 + n)] == b ^ mask);
    assert(orig_cs[j - (8 + n)] == b);
    assert(cs != orig_cs);
    lemma_be32_val_bytes(cs);
    lemma_be32_val_bytes(orig_cs);
    assert(be32_val(cs) != be32_val(orig_cs));
    lemma_u32_be_bytes_val(c.spec_crc());
}

} // verus!
