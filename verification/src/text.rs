//! Text fields on the wire: UTF-8 bytes out, lossy UTF-8 decoding in.

use vstd::prelude::*;
use vstd::utf8::{decode_utf8, encode_utf8, valid_utf8};

verus! {

/// What `String::from_utf8_lossy` makes of a byte sequence that is not
/// valid UTF-8 (each invalid sequence becomes U+FFFD).
pub uninterp spec fn utf8_lossy(bytes: Seq<u8>) -> Seq<char>;

/// The text a field of `bytes` is read as: the characters it encodes when
/// it is valid UTF-8, the lossy decoding otherwise.
pub open spec fn lossy_text(bytes: Seq<u8>) -> Seq<char> {
    if valid_utf8(bytes) {
        decode_utf8(bytes)
    } else {
        utf8_lossy(bytes)
    }
}

/// Calls `String::from_utf8_lossy`. Its documentation promises that valid
/// UTF-8 is decoded unchanged (no replacement happens); for invalid input the
/// result is only named here, since the replacement rules are not restated.
#[verifier::external_body]
pub(crate) fn string_from_utf8_lossy(bytes: &[u8]) -> (s: String)
    ensures
        valid_utf8(bytes@) ==> s@ == decode_utf8(bytes@),
        !valid_utf8(bytes@) ==> s@ == utf8_lossy(bytes@),
{
    String::from_utf8_lossy(bytes).into_owned()
}

/// Decodes `buf[from..to]` as text.
pub fn text_from_range(buf: &[u8], from: usize, to: usize) -> (s: String)
    requires
        from <= to <= buf@.len(),
    ensures
        s@ == lossy_text(buf@.subrange(from as int, to as int)),
{
    let bytes = vstd::slice::slice_subrange(buf, from, to);
    string_from_utf8_lossy(bytes)
}

/// The UTF-8 bytes of a string.
pub fn utf8_bytes(s: &String) -> (b: &[u8])
    ensures
        b@ == encode_utf8(s@),
{
    s.as_str().as_bytes()
}

/// Text written as UTF-8 reads back unchanged.
pub proof fn lemma_text_roundtrip(c: Seq<char>)
    ensures
        lossy_text(encode_utf8(c)) == c,
{
    vstd::utf8::encode_utf8_valid_utf8(c);
    vstd::utf8::encode_utf8_decode_utf8(c);
}

} // verus!
