//! Framing of request texts for the native boundary.
//!
//! A request crosses the boundary as a nul-terminated byte string, so a text
//! whose UTF-8 encoding contains a nul byte cannot be represented there. Such
//! a text is rejected here, before any native call, as an encoding violation;
//! every other text is framed as its bytes followed by a single terminating
//! nul.

use vstd::prelude::*;
use vstd::utf8::decode_utf8;
use vstd::utf8::encode_utf8;
use vstd::utf8::encode_utf8_decode_utf8;
use vstd::utf8::encode_utf8_valid_utf8;
use vstd::utf8::valid_utf8;

verus! {

/// The byte sequence a request text presents at the native boundary, before
/// the terminating nul is appended: its UTF-8 encoding.
pub open spec fn request_wire_bytes(request: Seq<char>) -> Seq<u8> {
    encode_utf8(request)
}

/// Holds when no byte of `bytes` is a nul byte.
pub open spec fn nul_free(bytes: Seq<u8>) -> bool {
    forall|i: int| 0 <= i < bytes.len() ==> bytes[i] != 0u8
}

/// Holds when a request text can cross the native boundary at all: its
/// encoding carries no embedded nul byte, so it can be marshaled as a
/// nul-terminated native string. `send` and `execute` accept exactly these
/// texts.
pub open spec fn accepted(request: Seq<char>) -> bool {
    nul_free(request_wire_bytes(request))
}

/// The failure reported when a request text cannot be represented as a
/// nul-terminated native string: one of its bytes is a nul byte.
/// `nul_position` is the byte offset of the first such byte.
#[derive(Clone, Copy, Debug, PartialEq, Eq, Structural)]
pub struct EncodingViolation {
    pub nul_position: usize,
}

/// Marshals a request text into the exact byte sequence that crosses the
/// native boundary: the text's UTF-8 bytes followed by one terminating nul.
/// A text with an embedded nul byte is rejected before any crossing, and the
/// error names the first offending byte.
pub fn marshal_request(request: &str) -> (r: Result<Vec<u8>, EncodingViolation>)
    ensures
        r is Ok <==> accepted(request@),
        match r {
            Ok(payload) => payload@ == request_wire_bytes(request@).push(0u8),
            Err(e) => {
                let bytes = request_wire_bytes(request@);
                &&& e.nul_position < bytes.len()
                &&& bytes[e.nul_position as int] == 0u8
                &&& nul_free(bytes.take(e.nul_position as int))
            },
        },
{
    let bytes: &[u8] = request.as_bytes();
    let n: usize = bytes.len();
    let mut payload: Vec<u8> = Vec::new();
    let mut i: usize = 0;
    while i < n
        invariant
            n == bytes@.len(),
            bytes@ == request_wire_bytes(request@),
            i <= n,
            payload@ == bytes@.take(i as int),
            nul_free(bytes@.take(i as int)),
        decreases n - i,
    {
        let b: u8 = bytes[i];
        if b == 0 {
            return Err(EncodingViolation { nul_position: i });
        }
        payload.push(b);
        i += 1;
    }
    assert(bytes@.take(n as int) =~= bytes@);
    payload.push(0u8);
    Ok(payload)
}

/// Every payload that crosses the boundary is a well-formed native string:
/// it is one byte longer than the request's wire bytes, its last byte is the
/// terminating nul, and no earlier byte is a nul. So the native side reads
/// the whole request, never a truncation of it.
pub proof fn lemma_payload_well_formed(request: Seq<char>)
    requires
        accepted(request),
    ensures
        ({
            let payload = request_wire_bytes(request).push(0u8);
            &&& payload.len() == request_wire_bytes(request).len() + 1
            &&& payload[payload.len() - 1] == 0u8
            &&& forall|i: int| 0 <= i < payload.len() - 1 ==> payload[i] != 0u8
        }),
{
}

/// The wire encoding is faithful: the bytes a request text presents at the
/// boundary are valid UTF-8 and decode back to exactly that text. Two
/// different request texts therefore never cross as the same bytes, and a
/// crossing by itself corrupts nothing.
pub proof fn lemma_wire_bytes_faithful(request: Seq<char>)
    ensures
        valid_utf8(request_wire_bytes(request)),
        decode_utf8(request_wire_bytes(request)) == request,
{
    encode_utf8_valid_utf8(request);
    encode_utf8_decode_utf8(request);
}

} // verus!
