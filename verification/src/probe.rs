//! The readiness probe's decisions.
//!
//! The probe checks that a locally bound datagram path is forwarding bytes:
//! the host binds a listening socket on the first free port at or above
//! `PROBE_BASE_PORT`, has a background context send the one-byte marker at
//! it a few times from the adjacent port, and blocks on one receive bounded
//! by the caller's timeout. The decisions — which port to try next, and the
//! verdict of the receive — are made here.

use vstd::prelude::*;
use crate::relay::BindFailure;
use crate::Error;

verus! {

/// The local port the probe's listener tries first.
pub const PROBE_BASE_PORT: u16 = 3000;

/// The one-byte marker the probe sends toward its listener.
pub const PROBE_MARKER: u8 = 69;

/// How many times, about a millisecond apart, the marker is sent.
pub const PROBE_ATTEMPTS: usize = 10;

/// What the probe does about one failed bind while scanning for a free
/// port.
#[derive(Clone, Copy, Debug, PartialEq, Eq, Structural)]
pub enum ProbeBindDecision {
    /// The port is only occupied: try the next one up.
    TryNextPort(u16),
    /// The bind failed for another reason, or the ports ran out: the probe
    /// reports `InvalidSocket`.
    ReportInvalidSocket,
}

/// An occupied port moves the scan one port up; any other bind failure ends
/// the probe, as does running out of ports.
pub fn probe_bind_decision(k: BindFailure, port: u16) -> (r: ProbeBindDecision)
    ensures
        k == BindFailure::AddrInUse && port < 65535 ==> r == ProbeBindDecision::TryNextPort(
            (port + 1) as u16,
        ),
        k == BindFailure::Other || port == 65535 ==> r == ProbeBindDecision::ReportInvalidSocket,
{
    match k {
        BindFailure::AddrInUse => {
            if port < 65535 {
                ProbeBindDecision::TryNextPort(port + 1)
            } else {
                ProbeBindDecision::ReportInvalidSocket
            }
        },
        BindFailure::Other => ProbeBindDecision::ReportInvalidSocket,
    }
}

/// The probe's verdict from its one bounded receive: no error when any byte
/// arrived within the timeout, `Unknown` when none did.
pub fn probe_verdict(received: bool) -> (r: Option<Error>)
    ensures
        received <==> r is None,
        !received ==> r == Some(Error::Unknown),
{
    if received {
        None
    } else {
        Some(Error::Unknown)
    }
}

} // verus!
