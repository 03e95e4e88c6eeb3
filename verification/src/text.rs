//! Text that the backend hands over as raw bytes.

use vstd::prelude::*;
use vstd::utf8::{
    decode_utf8, encode_utf8, encode_utf8_decode_utf8, encode_utf8_valid_utf8, is_ascii_chars,
    is_ascii_chars_encode_utf8, valid_utf8,
};

verus! {

/// The text a byte string is read as when nothing may fail: well-formed
/// UTF-8 is taken as it stands, and each malformed sequence becomes the
/// replacement character U+FFFD.
pub uninterp spec fn utf8_lossy(bytes: Seq<u8>) -> Seq<char>;

/// Whether every byte is plain ASCII.
pub open spec fn is_ascii_bytes(bytes: Seq<u8>) -> bool {
    forall|at: int| 0 <= at < bytes.len() ==> #[trigger] bytes[at] < 0x80
}

/// The text of ASCII bytes: each byte is its own character.
pub open spec fn ascii_text(bytes: Seq<u8>) -> Seq<char> {
    Seq::new(bytes.len(), |at: int| bytes[at] as char)
}

/// Calls `String::from_utf8_lossy` and takes the result as an owned string.
/// Trusted, not proved: that the result is a function of the bytes alone,
/// named `utf8_lossy`, and that bytes which already are well-formed UTF-8
/// come out as the text they encode.
#[verifier::external_body]
pub(crate) fn decode_lossy(bytes: &[u8]) -> (text: String)
    ensures
        text@ == utf8_lossy(bytes@),
        valid_utf8(bytes@) ==> text@ == decode_utf8(bytes@),
{
    String::from_utf8_lossy(bytes).into_owned()
}

/// ASCII bytes are well-formed UTF-8, and the text they encode is the same
/// bytes read as characters. So a name or version in plain ASCII is decoded
/// letter for letter.
pub proof fn lemma_ascii_decodes_to_itself(bytes: Seq<u8>)
    requires
        is_ascii_bytes(bytes),
    ensures
        valid_utf8(bytes),
        decode_utf8(bytes) == ascii_text(bytes),
{
    let chars = ascii_text(bytes);
    assert forall|at: int| 0 <= at < chars.len() implies '\0' <= #[trigger] chars[at]
        <= '\u{7f}' by {
        assert(bytes[at] < 0x80);
    }
    assert(is_ascii_chars(chars));
    is_ascii_chars_encode_utf8(chars);
    assert forall|at: int| 0 <= at < bytes.len() implies encode_utf8(chars)[at] == bytes[at] by {
        assert(bytes[at] < 0x80);
        assert(chars[at] as u8 == encode_utf8(chars)[at]);
    }
    assert(encode_utf8(chars) =~= bytes);
    encode_utf8_valid_utf8(chars);
    encode_utf8_decode_utf8(chars);
}

} // verus!
