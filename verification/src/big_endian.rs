//! Big-endian conversion between a `u32` and its four bytes, as the chunk
//! layout stores the length and checksum fields.

use vstd::prelude::*;

verus! {

/// The `u32` whose big-endian byte representation is `b` (which must hold
/// exactly four bytes).
pub open spec fn be32_val(b: Seq<u8>) -> u32
    recommends
        b.len() == 4,
{
    ((b[0] as u32) << 24) | ((b[1] as u32) << 16) | ((b[2] as u32) << 8) | (b[3] as u32)
}

/// The four big-endian bytes of `x`, most significant first.
pub open spec fn u32_be_bytes(x: u32) -> Seq<u8> {
    seq![(x >> 24) as u8, (x >> 16) as u8, (x >> 8) as u8, x as u8]
}

/// Reading four big-endian bytes back as a value recovers the value they were
/// written from.
pub proof fn lemma_u32_be_bytes_val(x: u32)
    ensures
        be32_val(u32_be_bytes(x)) == x,
{
    assert(((((x >> 24) as u8) as u32) << 24) | ((((x >> 16) as u8) as u32) << 16) | ((((x
        >> 8) as u8) as u32) << 8) | ((x as u8) as u32) == x) by (bit_vector);
}

proof fn lemma_be32_digits(b0: u8, b1: u8, b2: u8, b3: u8)
    by (bit_vector)
    ensures
        ((((b0 as u32) << 24) | ((b1 as u32) << 16) | ((b2 as u32) << 8) | (b3 as u32)) >> 24) as u8
            == b0,
        ((((b0 as u32) << 24) | ((b1 as u32) << 16) | ((b2 as u32) << 8) | (b3 as u32)) >> 16) as u8
            == b1,
        ((((b0 as u32) << 24) | ((b1 as u32) << 16) | ((b2 as u32) << 8) | (b3 as u32)) >> 8) as u8
            == b2,
        (((b0 as u32) << 24) | ((b1 as u32) << 16) | ((b2 as u32) << 8) | (b3 as u32)) as u8 == b3,
{
}

/// Writing a value read from four bytes recovers those bytes; so two distinct
/// four-byte sequences never read as the same value.
pub proof fn lemma_be32_val_bytes(b: Seq<u8>)
    requires
        b.len() == 4,
    ensures
        u32_be_bytes(be32_val(b)) == b,
{
    lemma_be32_digits(b[0], b[1], b[2], b[3]);
    assert(u32_be_bytes(be32_val(b)) =~= b);
}

/// Read a `u32` out of four big-endian bytes.
pub fn u32_from_be(b: &[u8; 4]) -> (x: u32)
    ensures
        x == be32_val(b@),
{
    ((b[0] as u32) << 24) | ((b[1] as u32) << 16) | ((b[2] as u32) << 8) | (b[3] as u32)
}

/// Write a `u32` as four big-endian bytes.
pub fn u32_to_be(x: u32) -> (b: [u8; 4])
    ensures
        b@ == u32_be_bytes(x),
{
    let b = [(x >> 24) as u8, (x >> 16) as u8, (x >> 8) as u8, x as u8];
    proof {
        assert(b@ =~= u32_be_bytes(x));
    }
    b
}

} // verus!
