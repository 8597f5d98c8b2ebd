//! A safe boundary layer over the TDLib JSON interface.
//!
//! TDLib (the Telegram Database library) exposes a C-style call table of four
//! primitives: create a client identifier, send a request, receive the next
//! update with a timeout, and execute a restricted subset of requests
//! synchronously. Requests and responses are opaque JSON texts; at the native
//! boundary they travel as nul-terminated byte strings whose backing memory
//! the engine owns and reuses.
//!
//! This crate holds the part of that boundary that can be reasoned about as
//! plain values: framing a request text as a nul-terminated byte sequence
//! (rejecting texts with an embedded nul byte before they reach the native
//! side), tagging a request with the client identifier it is for, and turning
//! the bytes copied out of an engine-owned buffer back into an owned text.
//! The native calls themselves, and the raw-pointer copy discipline around
//! them, live with the host application; it hands this crate plain byte and
//! text values and receives plain values back.

mod bridge;
mod marshal;
mod response;

pub use bridge::SendAction;
pub use bridge::TDLib;
pub use marshal::accepted;
pub use marshal::lemma_payload_well_formed;
pub use marshal::lemma_wire_bytes_faithful;
pub use marshal::marshal_request;
pub use marshal::nul_free;
pub use marshal::request_wire_bytes;
pub use marshal::EncodingViolation;
pub use response::lossy_text;
pub use response::response_text;
