//! The bridge instance: one engine-issued client identifier, and the
//! tagging of marshaled requests with it.

use crate::marshal::accepted;
use crate::marshal::marshal_request;
use crate::marshal::nul_free;
use crate::marshal::request_wire_bytes;
use crate::marshal::EncodingViolation;
use vstd::prelude::*;

verus! {

/// A bridge instance over the TDLib JSON interface. It wraps exactly one
/// client identifier, issued by the engine at creation time, and holds no
/// state beyond it: every operation is a direct, unbuffered crossing, and
/// matching requests to responses is left to correlation fields inside the
/// JSON payloads themselves.
#[derive(Clone, Copy, Debug)]
pub struct TDLib {
    client_id: i32,
}

/// One fully marshaled `send` crossing: the client identifier the request is
/// tagged with, and the nul-terminated payload handed to the native side.
#[derive(Debug)]
pub struct SendAction {
    pub client_id: i32,
    pub payload: Vec<u8>,
}

impl TDLib {
    /// The client identifier this instance wraps.
    pub closed spec fn spec_client_id(&self) -> i32 {
        self.client_id
    }

    /// Wraps an engine-issued client identifier. The identifier is stored
    /// unchanged and is immutable for the instance's lifetime. The host
    /// application obtains it from the engine's client-creation primitive,
    /// which is documented as always succeeding and as never reusing an
    /// identifier; this layer neither closes nor reclaims it, since session
    /// teardown is a protocol-level request sent through the normal send
    /// path.
    pub fn with_client_id(client_id: i32) -> (r: TDLib)
        ensures
            r.spec_client_id() == client_id,
    {
        TDLib { client_id }
    }

    /// The client identifier, exactly as the engine issued it.
    pub fn client_id(&self) -> (r: i32)
        ensures
            r == self.spec_client_id(),
    {
        self.client_id
    }

    /// Marshals one `send` crossing for this instance: the request text is
    /// framed as its UTF-8 bytes plus one terminating nul and tagged with
    /// this instance's client identifier. A text with an embedded nul byte
    /// is rejected as an encoding violation before anything reaches the
    /// native side, and the error names the first offending byte.
    pub fn prepare_send(&self, request: &str) -> (r: Result<
        SendAction,
        EncodingViolation,
    >)
        ensures
            r is Ok <==> accepted(request@),
            match r {
                Ok(action) => {
                    &&& action.client_id == self.spec_client_id()
                    &&& action.payload@ == request_wire_bytes(request@).push(0u8)
                },
                Err(e) => {
                    let bytes = request_wire_bytes(request@);
                    &&& e.nul_position < bytes.len()
                    &&& bytes[e.nul_position as int] == 0u8
                    &&& nul_free(bytes.take(e.nul_position as int))
                },
            },
    {
        match marshal_request(request) {
            Ok(payload) => Ok(SendAction { client_id: self.client_id, payload }),
            Err(e) => Err(e),
        }
    }
}

} // verus!
