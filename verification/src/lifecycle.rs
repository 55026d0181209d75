//! The session lifecycle: a singleton registry and the start/stop surface.
//!
//! At most one session exists at a time. The registry holds the sender half
//! of the active session's control channel; `start_decision` refuses a
//! second start and rejects malformed addresses before anything is spawned,
//! and `stop_emotional_damage` signals and clears the active session. The
//! embedding host guards one registry with mutual exclusion, spawns the
//! relay's execution context on a `Launch` decision, and installs the
//! sender half here.

use vstd::prelude::*;
use vstd::string::StringSliceAdditionalSpecFns;
use crate::addr::{addr_of_split, addr_split_at, parse_bind_addr, valid_addr_text, BindAddr};

verus! {

#[verifier::external_type_specification]
#[verifier::external_body]
#[verifier::reject_recursive_types(T)]
pub struct ExSender<T>(std::sync::mpsc::Sender<T>);

/// Relies on std's `mpsc::Sender::send`: best-effort delivery of the one
/// termination signal; it fails exactly when the receiver is gone, and the
/// caller ignores which.
#[verifier::external_body]
fn send_stop_signal(tx: &std::sync::mpsc::Sender<()>) -> (r: bool)
{
    tx.send(()).is_ok()
}

/// The handle to at most one active session: the sender half of its control
/// channel, present exactly while a session is registered.
pub struct Registry {
    active: Option<std::sync::mpsc::Sender<()>>,
}

impl Registry {
    /// Whether a session is currently registered.
    pub closed spec fn busy(&self) -> bool {
        self.active is Some
    }

    /// A fresh registry with no session.
    pub fn new() -> (r: Registry)
        ensures
            !r.busy(),
    {
        Registry { active: None }
    }

    pub fn is_busy(&self) -> (r: bool)
        ensures
            r == self.busy(),
    {
        self.active.is_some()
    }

    /// Installs the control-channel sender of the session just spawned.
    /// Only a free registry accepts one: the single-session invariant.
    pub fn install(&mut self, tx: std::sync::mpsc::Sender<()>)
        requires
            !old(self).busy(),
        ensures
            final(self).busy(),
    {
        self.active = Some(tx);
    }
}

/// What a `start` call decides before anything is spawned.
#[derive(Debug)]
pub enum StartDecision {
    /// A session is already registered; it is left untouched.
    AlreadyRunning,
    /// The text is not a well-formed `ipv4:port` address.
    InvalidAddress,
    /// Spawn a relay bound to this address and install its handle.
    Launch(BindAddr),
}

/// Decides a `start` call. A busy registry refuses it, whatever the text;
/// otherwise the text must parse as `ipv4:port`, and a launch is decided for
/// exactly the address the text denotes. Nothing is spawned and the registry
/// is not touched unless the decision is `Launch`.
pub fn start_decision(reg: &Registry, bind_addr: &str) -> (r: StartDecision)
    ensures
        reg.busy() ==> r is AlreadyRunning,
        !reg.busy() ==> (r is InvalidAddress <==> !valid_addr_text(bind_addr.spec_bytes())),
        !reg.busy() && valid_addr_text(bind_addr.spec_bytes()) ==> r is Launch,
        !reg.busy() ==> forall|i1: int, i2: int, i3: int, i4: int|
            addr_split_at(bind_addr.spec_bytes(), i1, i2, i3, i4) ==> r == StartDecision::Launch(
                addr_of_split(bind_addr.spec_bytes(), i1, i2, i3, i4),
            ),
{
    if reg.is_busy() {
        return StartDecision::AlreadyRunning;
    }
    match parse_bind_addr(bind_addr) {
        Some(b) => StartDecision::Launch(b),
        None => StartDecision::InvalidAddress,
    }
}

/// Stops the active session, if one is registered: sends one termination
/// signal, best-effort, and clears the handle. The operation is total and
/// idempotent — with no session registered it does nothing, errors nothing
/// and panics nothing, and after any call the registry is free.
pub fn stop_emotional_damage(reg: &mut Registry)
    ensures
        !final(reg).busy(),
{
    let mut taken: Option<std::sync::mpsc::Sender<()>> = None;
    core::mem::swap(&mut taken, &mut reg.active);
    match taken {
        Some(tx) => {
            let _delivered = send_stop_signal(&tx);
        },
        None => {},
    }
}

} // verus!
