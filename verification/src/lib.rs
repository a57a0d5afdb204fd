//! A request bridge: wraps a caller's text in a JSON envelope, describes the
//! HTTP POST that carries it to one endpoint, and turns what the transport
//! reports back into an outcome for the caller.
//!
//! The library performs no I/O. The host sends the request that the bridge
//! describes and hands back a [`Reply`]; the bridge decides what it means.
//! Every function here is verified, except the one call into the serializer
//! in [`json`], whose contract is assumed.

pub mod bridge;
pub mod envelope;
pub mod json;
pub mod laws;
pub mod literal;
pub mod outcome;
pub mod status;
pub mod transport;

pub use bridge::{make_post_request, RequestBridge, ENDPOINT_URL};
pub use envelope::Envelope;
pub use outcome::{FailureKind, Outcome};
pub use transport::{HttpRequest, Reply};
