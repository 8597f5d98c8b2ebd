//! Owned copies of engine-produced response texts.
//!
//! The engine answers with a nul-terminated byte string whose backing memory
//! it owns and reuses on the next crossing. The host application copies those
//! bytes out of the native buffer before any further native call; this module
//! turns such a copy into an owned text, so that nothing downstream can ever
//! alias engine-owned memory.

use vstd::prelude::*;
use vstd::utf8::decode_utf8;
use vstd::utf8::valid_utf8;

verus! {

/// The text that lossy UTF-8 decoding yields for a byte sequence: valid
/// UTF-8 decodes as is, and each invalid sequence becomes a replacement
/// character.
pub uninterp spec fn lossy_text(bytes: Seq<u8>) -> Seq<char>;

/// Relies on `String::from_utf8_lossy`: the result depends on the bytes
/// alone, and bytes that are valid UTF-8 decode to exactly their decoding.
#[verifier::external_body]
fn lossy_string(raw: &[u8]) -> (r: String)
    ensures
        r@ == lossy_text(raw@),
        valid_utf8(raw@) ==> r@ == decode_utf8(raw@),
{
    String::from_utf8_lossy(raw).into_owned()
}

/// Turns the bytes copied out of an engine-owned response buffer into an
/// owned text. The engine documents its responses as encoded text, so on
/// every response it actually produces the result is exactly the decoded
/// bytes; an invalid sequence is kept as a replacement character rather
/// than dropped, and never fails the call.
pub fn response_text(raw: &[u8]) -> (r: String)
    ensures
        r@ == lossy_text(raw@),
        valid_utf8(raw@) ==> r@ == decode_utf8(raw@),
{
    lossy_string(raw)
}

} // verus!
