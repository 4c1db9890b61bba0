//! Turning payload bytes into text: the one place the crate leans on the
//! standard library's UTF-8 decoder.

use vstd::prelude::*;
use vstd::utf8::{
    decode_utf8, encode_utf8, encode_utf8_decode_utf8, encode_utf8_valid_utf8, is_ascii_chars,
    is_ascii_chars_encode_utf8, valid_utf8,
};

verus! {

/// The characters that a sequence of ASCII bytes stands for, byte by byte.
pub open spec fn chars_of_bytes(s: Seq<u8>) -> Seq<char> {
    s.map_values(|b: u8| b as char)
}

/// Relies on `String::from_utf8`: it succeeds exactly on valid UTF-8 input,
/// and the bytes of the returned string are the input bytes.
#[verifier::external_body]
pub(crate) fn string_from_utf8(bytes: Vec<u8>) -> (r: Option<String>)
    ensures
        match r {
            Some(s) => valid_utf8(bytes@) && encode_utf8(s@) == bytes@,
            None => !valid_utf8(bytes@),
        },
{
    String::from_utf8(bytes).ok()
}

/// A sequence of ASCII bytes is valid UTF-8 and decodes to one character per
/// byte.
pub proof fn lemma_ascii_bytes_decode(b: Seq<u8>)
    requires
        forall|i: int| 0 <= i < b.len() ==> b[i] < 128,
    ensures
        valid_utf8(b),
        decode_utf8(b) == chars_of_bytes(b),
{
    let chars = chars_of_bytes(b);
    assert forall|i: int| 0 <= i < chars.len() implies '\0' <= #[trigger] chars[i] <= '\u{7f}' by {
        assert(chars[i] == b[i] as char);
        assert(b[i] < 128);
    }
    assert(is_ascii_chars(chars));
    is_ascii_chars_encode_utf8(chars);
    assert(encode_utf8(chars) =~= b);
    encode_utf8_valid_utf8(chars);
    encode_utf8_decode_utf8(chars);
}

} // verus!
