//! The CRC-32/ISO-HDLC checksum over a chunk's type and payload bytes,
//! computed by the `crc` crate.

use vstd::prelude::*;

verus! {

/// The CRC-32/ISO-HDLC checksum of a byte sequence. The algorithm itself
/// stays in the `crc` crate; its result is a function of the bytes alone, so
/// the contracts only name it.
pub uninterp spec fn crc32_of(bytes: Seq<u8>) -> u32;

/// Relies on `crc::Crc` with `CRC_32_ISO_HDLC`: a digest updated with the
/// type bytes and then the payload bytes finalizes to the checksum of their
/// concatenation, and that checksum depends on the bytes alone.
#[verifier::external_body]
pub(crate) fn crc32_type_and_data(type_bytes: &[u8; 4], data: &[u8]) -> (r: u32)
    ensures
        r == crc32_of(type_bytes@ + data@),
{
    let crc = crc::Crc::<u32>::new(&crc::CRC_32_ISO_HDLC);
    let mut digest = crc.digest();
    digest.update(type_bytes);
    digest.update(data);
    digest.finalize()
}

} // verus!
