//! The relay loop's per-iteration decisions.
//!
//! Each inbound datagram is classified by the tunnel primitive into an
//! `Outcome`; `classify` turns an outcome and the session's readiness into
//! the one step the loop must take next. The remaining functions decide how
//! the loop reacts to socket failures and to its control channel. The loop
//! itself — receiving, sending, sleeping — runs in the embedding host, which
//! carries out exactly the decisions made here.

use vstd::prelude::*;

verus! {

/// The tagged result of feeding one buffer through the tunnel primitive.
#[derive(Debug)]
pub enum Outcome {
    /// Nothing to send; on its first occurrence the session becomes ready.
    Quiescent,
    /// Malformed or undecryptable input — dropped, never fatal.
    Rejected,
    /// Ciphertext to send back to the peer over the bound socket.
    EmitToTransport(Vec<u8>),
    /// A decrypted payload to deliver locally, address-rewritten first.
    EmitToLocalPath(Vec<u8>),
    /// A payload of an unsupported address family — fatal for the session.
    UnsupportedFamily,
}

/// The one step the relay loop takes for one outcome.
#[derive(Debug)]
pub enum Step {
    /// Nothing to do; keep serving.
    Idle,
    /// First quiescent outcome: mark the session ready, keep serving.
    MarkReady,
    /// Send these bytes to the peer, then drain further transport emissions.
    SendAndDrain(Vec<u8>),
    /// Rewrite this payload's addresses and re-encapsulate it.
    RewriteAndReturn(Vec<u8>),
    /// End the session at once.
    Terminate,
}

/// What `classify` decides for each outcome.
pub open spec fn step_of(o: Outcome, ready: bool) -> Step {
    match o {
        Outcome::Quiescent => if ready {
            Step::Idle
        } else {
            Step::MarkReady
        },
        Outcome::Rejected => Step::Idle,
        Outcome::EmitToTransport(b) => Step::SendAndDrain(b),
        Outcome::EmitToLocalPath(b) => Step::RewriteAndReturn(b),
        Outcome::UnsupportedFamily => Step::Terminate,
    }
}

/// Decides the relay loop's next step from one outcome and the session's
/// readiness. An unsupported address family always terminates the session;
/// a rejected datagram never does.
pub fn classify(o: Outcome, ready: bool) -> (r: Step)
    ensures
        r == step_of(o, ready),
{
    match o {
        Outcome::Quiescent => if ready {
            Step::Idle
        } else {
            Step::MarkReady
        },
        Outcome::Rejected => Step::Idle,
        Outcome::EmitToTransport(b) => Step::SendAndDrain(b),
        Outcome::EmitToLocalPath(b) => Step::RewriteAndReturn(b),
        Outcome::UnsupportedFamily => Step::Terminate,
    }
}

/// The bytes an outcome sends to the peer: a transport emission carries its
/// bytes, every other outcome carries none.
pub open spec fn emission_of(o: Outcome) -> Option<Vec<u8>> {
    match o {
        Outcome::EmitToTransport(b) => Some(b),
        _ => None,
    }
}

/// Picks the bytes to send out of one outcome: exactly the transport
/// emissions, nothing else. The drain after a transport emission stops at
/// the first outcome that carries none, and a re-encapsulated local payload
/// is returned to the peer exactly when its outcome carries bytes.
pub fn transport_emission(o: Outcome) -> (r: Option<Vec<u8>>)
    ensures
        r == emission_of(o),
{
    match o {
        Outcome::EmitToTransport(b) => Some(b),
        _ => None,
    }
}

/// Whether the relay loop goes on serving or ends.
#[derive(Clone, Copy, Debug, PartialEq, Eq, Structural)]
pub enum LoopDecision {
    KeepServing,
    EndSession,
}

/// How a socket receive failed, as the loop reads it.
#[derive(Clone, Copy, Debug, PartialEq, Eq, Structural)]
pub enum RecvFailure {
    WouldBlock,
    TimedOut,
    Other,
}

/// A receive that would block or timed out is the loop's ordinary suspension
/// point; any other receive failure is fatal for the session.
pub fn recv_failure_decision(k: RecvFailure) -> (r: LoopDecision)
    ensures
        r == LoopDecision::EndSession <==> k == RecvFailure::Other,
{
    match k {
        RecvFailure::WouldBlock => LoopDecision::KeepServing,
        RecvFailure::TimedOut => LoopDecision::KeepServing,
        RecvFailure::Other => LoopDecision::EndSession,
    }
}

/// How a socket bind failed.
#[derive(Clone, Copy, Debug, PartialEq, Eq, Structural)]
pub enum BindFailure {
    AddrInUse,
    Other,
}

/// What the socket layer does about a failed bind.
#[derive(Clone, Copy, Debug, PartialEq, Eq, Structural)]
pub enum BindDecision {
    /// The address is only occupied: retry after a short delay.
    RetryAfterDelay,
    /// Any other bind error is fatal.
    Fail,
}

/// An occupied address is retried indefinitely with a short delay; every
/// other bind failure is fatal.
pub fn bind_failure_decision(k: BindFailure) -> (r: BindDecision)
    ensures
        r == BindDecision::RetryAfterDelay <==> k == BindFailure::AddrInUse,
{
    match k {
        BindFailure::AddrInUse => BindDecision::RetryAfterDelay,
        BindFailure::Other => BindDecision::Fail,
    }
}

/// What one poll of the control channel observed.
#[derive(Clone, Copy, Debug, PartialEq, Eq, Structural)]
pub enum ControlEvent {
    /// A termination request arrived.
    SignalReceived,
    /// Nothing was waiting.
    Empty,
    /// The sender half is gone; nobody can stop the loop any more.
    Disconnected,
}

/// The loop serves on only while the control channel is silent; a signal or
/// a vanished sender ends the session.
pub fn control_decision(c: ControlEvent) -> (r: LoopDecision)
    ensures
        r == LoopDecision::KeepServing <==> c == ControlEvent::Empty,
{
    match c {
        ControlEvent::SignalReceived => LoopDecision::EndSession,
        ControlEvent::Empty => LoopDecision::KeepServing,
        ControlEvent::Disconnected => LoopDecision::EndSession,
    }
}

} // verus!
