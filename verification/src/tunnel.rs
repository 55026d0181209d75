//! The encrypted-tunnel primitive and the per-datagram relay cycle.
//!
//! The tunnel primitive — boringtun's `Tunn` — is consumed as a black box:
//! its handshake and transport crypto are trusted, stated here only as far
//! as its own documentation goes. Everything around the calls is verified:
//! how each classified outcome is handled, the drain of queued responses,
//! and the rewrite-and-re-encapsulate path for locally bound payloads.

use vstd::prelude::*;
use vstd::string::StringSliceAdditionalSpecFns;
use std::str::FromStr;
use crate::addr::IpOctets;
use crate::relay::{classify, transport_emission, Outcome, Step};
use crate::rewrite::rewrite_addresses;

verus! {

#[verifier::external_type_specification]
#[verifier::external_body]
pub struct ExTunn(boringtun::noise::Tunn);

#[verifier::external_type_specification]
#[verifier::external_body]
pub struct ExSecretKey(boringtun::crypto::x25519::X25519SecretKey);

#[verifier::external_type_specification]
#[verifier::external_body]
pub struct ExPublicKey(boringtun::crypto::x25519::X25519PublicKey);

/// Largest datagram the relay reads from its socket in one receive.
pub const RECV_LIMIT: usize = 2048;

/// Scratch space handed to the tunnel primitive for one decapsulate call:
/// room for the largest inbound datagram plus the transport overhead, and
/// for any response the primitive formats on its own.
pub const SCRATCH_LEN: usize = 2208;

/// An ASCII hexadecimal digit, as the key parser's number reader takes it.
pub open spec fn is_hex_digit(b: u8) -> bool {
    (48 <= b && b <= 57) || (97 <= b && b <= 102) || (65 <= b && b <= 70)
}

/// One key byte's text as the hex path accepts it: two hex digits, or a
/// plus sign (43) followed by one — the number reader tolerates a leading
/// plus.
pub open spec fn hex_byte_pair(a: u8, b: u8) -> bool {
    (is_hex_digit(a) || a == 43) && is_hex_digit(b)
}

/// A key text the hex path accepts in full: 64 bytes, every pair readable.
pub open spec fn hex_key_text(s: Seq<u8>) -> bool {
    s.len() == 64 && forall|i: int| 0 <= i < 32 ==> hex_byte_pair(#[trigger] s[2 * i], s[2 * i + 1])
}

/// A length the key parser takes at all: 64 for hex, 43 or 44 for base64.
pub open spec fn key_text_len(s: Seq<u8>) -> bool {
    s.len() == 64 || s.len() == 43 || s.len() == 44
}

/// Relies on boringtun's `X25519SecretKey::from_str`: a 64-byte text is read
/// as hex, two characters per key byte, and succeeds exactly when every pair
/// reads; any other length than 64, 43 or 44 is refused. Of the 43/44-byte
/// base64 path nothing is stated: in this version a text that fails to
/// decode as base64 is accepted with an all-zero key, and one that decodes
/// to other than 32 bytes is refused. The hex path slices the text by byte
/// position, so only ASCII input is handed to it.
#[verifier::external_body]
fn parse_secret_key(s: &str) -> (r: Option<boringtun::crypto::x25519::X25519SecretKey>)
    requires
        vstd::string::is_ascii(s),
    ensures
        hex_key_text(s.spec_bytes()) ==> r is Some,
        s.spec_bytes().len() == 64 && !hex_key_text(s.spec_bytes()) ==> r is None,
        !key_text_len(s.spec_bytes()) ==> r is None,
{
    boringtun::crypto::x25519::X25519SecretKey::from_str(s).ok()
}

/// Relies on boringtun's `X25519PublicKey::from_str`: it delegates to the
/// secret-key parser and wraps its bytes, so it accepts and refuses exactly
/// the same texts.
#[verifier::external_body]
fn parse_public_key(s: &str) -> (r: Option<boringtun::crypto::x25519::X25519PublicKey>)
    requires
        vstd::string::is_ascii(s),
    ensures
        hex_key_text(s.spec_bytes()) ==> r is Some,
        s.spec_bytes().len() == 64 && !hex_key_text(s.spec_bytes()) ==> r is None,
        !key_text_len(s.spec_bytes()) ==> r is None,
{
    boringtun::crypto::x25519::X25519PublicKey::from_str(s).ok()
}

/// Relies on boringtun's `Tunn::new`: builds the state of one point-to-point
/// tunnel from the local secret key and the peer's public key. It fails only
/// when it rejects the key material — it refuses a degenerate pairing whose
/// shared secret is zero or whose keys coincide — so success is a property
/// of the keys' curve points, not statable here.
#[verifier::external_body]
fn create_tunnel(
    sk: boringtun::crypto::x25519::X25519SecretKey,
    pk: boringtun::crypto::x25519::X25519PublicKey,
) -> (r: Option<Box<boringtun::noise::Tunn>>)
{
    boringtun::noise::Tunn::new(
        std::sync::Arc::new(sk),
        std::sync::Arc::new(pk),
        None,
        None,
        0,
        None,
    ).ok()
}

/// Builds the tunnel primitive for one session from the two fixed textual
/// keys, or nothing where the key material is malformed: a text of a length
/// the parsers refuse, a hex text with an unreadable pair, or a pairing the
/// primitive itself rejects.
pub fn new_tunnel(secret_key_text: &str, public_key_text: &str) -> (r: Option<
    Box<boringtun::noise::Tunn>,
>)
    requires
        vstd::string::is_ascii(secret_key_text),
        vstd::string::is_ascii(public_key_text),
    ensures
        !key_text_len(secret_key_text.spec_bytes()) ==> r is None,
        !key_text_len(public_key_text.spec_bytes()) ==> r is None,
        secret_key_text.spec_bytes().len() == 64 && !hex_key_text(secret_key_text.spec_bytes())
            ==> r is None,
        public_key_text.spec_bytes().len() == 64 && !hex_key_text(public_key_text.spec_bytes())
            ==> r is None,
{
    let sk = match parse_secret_key(secret_key_text) {
        Some(k) => k,
        None => { return None; },
    };
    let pk = match parse_public_key(public_key_text) {
        Some(k) => k,
        None => { return None; },
    };
    create_tunnel(sk, pk)
}

/// Relies on boringtun's `Tunn::decapsulate`: feeds one inbound datagram to
/// the tunnel — or, on an empty buffer, asks it to re-emit one queued
/// response — through a scratch buffer of `scratch` bytes. Its documentation
/// asks the scratch to hold the datagram plus transport overhead; the floor
/// of `SCRATCH_LEN` bytes also covers every message the primitive formats on
/// its own (handshake replies and cookies) and every queued payload — the
/// encapsulate call below refuses payloads that would queue larger. A
/// locally bound payload is the truncated decryption of part of the
/// datagram, so it never outgrows the datagram; emitted buffers never
/// outgrow the scratch they were written through.
#[verifier::external_body]
fn tunn_decapsulate(
    tun: &boringtun::noise::Tunn,
    peer: &IpOctets,
    datagram: &Vec<u8>,
    scratch: usize,
) -> (r: Outcome)
    requires
        scratch >= datagram@.len() + 32,
        scratch >= SCRATCH_LEN,
    ensures
        r matches Outcome::EmitToTransport(b) ==> b@.len() <= scratch,
        r matches Outcome::EmitToLocalPath(b) ==> b@.len() <= scratch,
        datagram@.len() > 0 ==> (r matches Outcome::EmitToLocalPath(b) ==> b@.len()
            <= datagram@.len()),
{
    let src = core::net::IpAddr::V4(core::net::Ipv4Addr::new(peer.n0, peer.n1, peer.n2, peer.n3));
    let mut dst = vec![0u8; scratch];
    match tun.decapsulate(Some(src), datagram.as_slice(), &mut dst) {
        boringtun::noise::TunnResult::Done => Outcome::Quiescent,
        boringtun::noise::TunnResult::Err(_) => Outcome::Rejected,
        boringtun::noise::TunnResult::WriteToNetwork(b) => Outcome::EmitToTransport(b.to_vec()),
        boringtun::noise::TunnResult::WriteToTunnelV4(b, _) => Outcome::EmitToLocalPath(b.to_vec()),
        boringtun::noise::TunnResult::WriteToTunnelV6(_, _) => Outcome::UnsupportedFamily,
    }
}

/// Relies on boringtun's `Tunn::encapsulate`: wraps one payload for the peer
/// through a scratch buffer of `scratch` bytes. Its documentation asks the
/// scratch to hold the payload plus 32 bytes of overhead and no fewer than
/// 148 bytes (a handshake initiation). With no session yet, the call queues
/// the payload for a later drain, whose scratch is `SCRATCH_LEN` bytes: the
/// payload must leave room for its overhead there too, or that drain would
/// overrun its buffer. The result is classified exactly as for the
/// decapsulate call.
#[verifier::external_body]
fn tunn_encapsulate(tun: &boringtun::noise::Tunn, payload: &Vec<u8>, scratch: usize) -> (r:
    Outcome)
    requires
        scratch >= payload@.len() + 32,
        scratch >= 148,
        payload@.len() + 32 <= SCRATCH_LEN,
    ensures
        r matches Outcome::EmitToTransport(b) ==> b@.len() <= scratch,
        r matches Outcome::EmitToLocalPath(b) ==> b@.len() <= scratch,
{
    let mut dst = vec![0u8; scratch];
    match tun.encapsulate(payload.as_slice(), &mut dst) {
        boringtun::noise::TunnResult::Done => Outcome::Quiescent,
        boringtun::noise::TunnResult::Err(_) => Outcome::Rejected,
        boringtun::noise::TunnResult::WriteToNetwork(b) => Outcome::EmitToTransport(b.to_vec()),
        boringtun::noise::TunnResult::WriteToTunnelV4(b, _) => Outcome::EmitToLocalPath(b.to_vec()),
        boringtun::noise::TunnResult::WriteToTunnelV6(_, _) => Outcome::UnsupportedFamily,
    }
}

/// The mutable state one session carries across datagrams.
pub struct SessionState {
    /// Set once, at the session's first quiescent outcome, and never unset.
    pub ready: bool,
}

/// What one datagram's full cycle decided: the datagrams to send back to the
/// peer, in order, and whether the session must end.
pub struct CycleResult {
    pub to_send: Vec<Vec<u8>>,
    pub end_session: bool,
}

/// The upper bound on drain iterations after one transport emission. The
/// primitive re-emits queued responses one per call and queues no more than
/// 256 of them, so the bound is never the reason a drain stops.
pub const DRAIN_LIMIT: usize = 512;

/// Carries out one decided relay step. The result is pinned per step:
/// an idle step yields the empty cycle; marking ready flips the flag and
/// yields the empty cycle; a terminate step ends the session and sends
/// nothing; a transport emission is sent first, followed only by drained
/// responses, and never ends the session; a local payload of sound size is
/// rewritten and re-encapsulated, returning at most the one wrapped
/// datagram, while one of unsound size — no room for an address header, or
/// too large to re-enter the tunnel — ends the session cleanly. What the
/// drain and the re-encapsulation send is decided outcome by outcome by
/// `transport_emission`. Readiness flips exactly on a mark-ready step.
pub fn perform_step(
    tun: &boringtun::noise::Tunn,
    peer: &IpOctets,
    step: Step,
    st: &mut SessionState,
) -> (r: CycleResult)
    ensures
        final(st).ready == (old(st).ready || step is MarkReady),
        step is Idle ==> r.to_send@.len() == 0 && !r.end_session,
        step is MarkReady ==> r.to_send@.len() == 0 && !r.end_session,
        step is Terminate ==> r.to_send@.len() == 0 && r.end_session,
        step matches Step::SendAndDrain(b) ==> r.to_send@.len() >= 1 && r.to_send@[0] == b
            && !r.end_session,
        step matches Step::RewriteAndReturn(p) ==> ((20 <= p@.len() && p@.len() + 32
            <= SCRATCH_LEN) ==> (r.to_send@.len() <= 1 && !r.end_session)),
        step matches Step::RewriteAndReturn(p) ==> ((p@.len() < 20 || p@.len() + 32 > SCRATCH_LEN)
            ==> (r.to_send@.len() == 0 && r.end_session)),
{
    let mut to_send: Vec<Vec<u8>> = Vec::new();
    let mut end_session = false;
    match step {
        Step::Idle => {},
        Step::MarkReady => {
            st.ready = true;
        },
        Step::SendAndDrain(b) => {
            let ghost first = b;
            to_send.push(b);
            let empty: Vec<u8> = Vec::new();
            let mut budget: usize = DRAIN_LIMIT;
            let mut draining = true;
            while draining && budget > 0
                invariant
                    empty@.len() == 0,
                    to_send@.len() >= 1,
                    to_send@[0] == first,
                decreases budget,
            {
                match transport_emission(tunn_decapsulate(tun, peer, &empty, SCRATCH_LEN)) {
                    Some(more) => {
                        to_send.push(more);
                    },
                    None => {
                        draining = false;
                    },
                }
                budget = budget - 1;
            }
        },
        Step::RewriteAndReturn(mut payload) => {
            if 20 <= payload.len() && payload.len() <= SCRATCH_LEN - 32 {
                rewrite_addresses(&mut payload);
                let scratch = payload.len() + 180;
                match transport_emission(tunn_encapsulate(tun, &payload, scratch)) {
                    Some(wrapped) => {
                        to_send.push(wrapped);
                    },
                    None => {
                        // an unexpected re-encapsulation outcome is reported
                        // by the host, not fatal
                    },
                }
            } else {
                // no room for an address header, or no room in the tunnel:
                // unexpected, end the session cleanly
                end_session = true;
            }
        },
        Step::Terminate => {
            end_session = true;
        },
    }
    CycleResult { to_send, end_session }
}

/// Runs one inbound datagram through its full relay cycle: the tunnel
/// primitive classifies it, `classify` decides the step for its outcome,
/// and `perform_step` carries the step out — those two contracts pin what
/// comes back for each outcome. Readiness is monotone: once ready, a
/// session stays ready.
pub fn process_datagram(
    tun: &boringtun::noise::Tunn,
    peer: &IpOctets,
    datagram: &Vec<u8>,
    st: &mut SessionState,
) -> (r: CycleResult)
    requires
        datagram@.len() <= RECV_LIMIT,
    ensures
        old(st).ready ==> final(st).ready,
{
    let o = tunn_decapsulate(tun, peer, datagram, SCRATCH_LEN);
    let ready = st.ready;
    let step = classify(o, ready);
    perform_step(tun, peer, step, st)
}

} // verus!
