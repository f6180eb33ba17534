//! A bridge between a generic request/response service abstraction and a
//! bidirectional-stream HTTP protocol engine.
//!
//! The crate models the pieces a caller composes to turn an addressable
//! target into a usable connection: the connect/handshake state machine,
//! the background driver that owns the transport after the handshake, the
//! connection handle that submits requests, the body adapter that
//! translates between the two streaming-body contracts, and a retry policy
//! that re-issues requests whose bodies can be duplicated.
//!
//! The asynchronous collaborators (transport acquisition, the protocol
//! engine's I/O loop, the executor) are represented by the events they
//! report; the host environment drives the state machines with those
//! events and performs the actual I/O.

use vstd::prelude::*;

pub mod background;
pub mod body;
pub mod connect;
pub mod connection;
pub mod future;
pub mod http;
pub mod retries;
pub mod retry;
pub mod server;
pub mod util;

pub use body::Body;
pub use connect::Connect;
pub use connection::Connection;
pub use server::Server;

verus! {

/// The uniform error shape that protocol-level failures present to callers.
///
/// The protocol engine's own error value is opaque; the bridge only carries
/// it through, so a plain code is enough to keep distinct failures apart.
/// Heterogeneous failures (handshake, driver, body) all surface as this one
/// type, which is the single error-conversion boundary of the bridge.
#[derive(Clone, Copy, PartialEq, Eq, Structural, Debug)]
pub struct ProtocolError {
    /// Distinguishes one recorded failure from another.
    pub code: u32,
}

impl ProtocolError {
    /// Wrap a raw failure code.
    pub fn new(code: u32) -> (r: ProtocolError)
        ensures
            r.code == code,
    {
        ProtocolError { code }
    }
}

/// A bidirectional byte-stream capability, as the bridge sees it.
///
/// The make-connection collaborator produces one per connect attempt. The
/// bridge reads a single thing from it — the protocol version the
/// transport reports having negotiated, if any — and then hands it whole
/// to the handshake; after the handshake the background driver owns it
/// exclusively, which the ownership of this value enforces.
#[derive(Debug)]
pub struct Transport {
    /// The protocol version the transport negotiated on its own, if any.
    pub negotiated: Option<http::Version>,
}

impl Transport {
    /// A transport that negotiated nothing on its own.
    pub fn new() -> (r: Transport)
        ensures
            r.negotiated is None,
    {
        Transport { negotiated: None }
    }

    /// A transport that advertises a negotiated protocol version.
    pub fn with_negotiated(version: http::Version) -> (r: Transport)
        ensures
            r.negotiated == Option::Some(version),
    {
        Transport { negotiated: Option::Some(version) }
    }

    /// The version this transport reports having negotiated, if any.
    pub fn negotiated_version(&self) -> (r: Option<http::Version>)
        ensures
            r == self.negotiated,
    {
        self.negotiated
    }
}

} // verus!
