//! A single-peer, loopback-bound tunnel endpoint.
//!
//! The crate holds the logic of a session relay: parsing the textual bind
//! address, the packet-classification state machine around the encrypted
//! tunnel primitive, the fixed-offset address rewrite applied to decapsulated
//! payloads, the retry decisions of the socket layer, and the singleton
//! lifecycle registry with its readiness probe decisions. Socket and thread
//! handling live outside, in the embedding host, which feeds this crate plain
//! values and carries out the actions it decides on.

use vstd::prelude::*;

pub mod addr;
pub mod lifecycle;
pub mod probe;
pub mod relay;
pub mod rewrite;
pub mod tunnel;

verus! {

/// Error kinds reported to the embedding host by the caller-facing
/// operations.
#[derive(Clone, Copy, Debug, PartialEq, Eq, Structural)]
pub enum Error {
    /// The bind address does not parse as a textual `ipv4:port`.
    InvalidAddress,
    /// A port value is unusable.
    InvalidPort,
    /// No local socket could be bound.
    InvalidSocket,
    /// A session is already active; a second one may not be started.
    AlreadyRunning,
    /// No more specific cause is known (for the probe: no byte arrived).
    Unknown,
}

} // verus!
