use boringtun::crypto::x25519::{X25519PublicKey, X25519SecretKey};
use boringtun::noise::{Tunn, TunnResult};
use emp_tunnel::addr::IpOctets;
use emp_tunnel::relay::Step;
use emp_tunnel::tunnel::{new_tunnel, perform_step, process_datagram, SessionState};
use std::str::FromStr;
use std::sync::Arc;

fn hex(bytes: &[u8]) -> String {
    let mut s = String::new();
    for b in bytes {
        s.push_str(&format!("{:02x}", b));
    }
    s
}

/// A minimal IPv4 packet from 10.7.0.1 to 10.7.0.2 carrying `payload`.
fn ipv4_packet(payload: &[u8]) -> Vec<u8> {
    let total = 20 + payload.len();
    let mut p = vec![
        0x45, 0x00, (total >> 8) as u8, (total & 0xff) as u8, 0x00, 0x00, 0x00, 0x00, 0x40, 0x11,
        0x00, 0x00, 10, 7, 0, 1, 10, 7, 0, 2,
    ];
    p.extend_from_slice(payload);
    p
}

fn swapped(packet: &[u8]) -> Vec<u8> {
    let mut e = packet.to_vec();
    for k in 12..16 {
        e.swap(k, k + 4);
    }
    e
}

fn peer() -> IpOctets {
    IpOctets { n0: 127, n1: 0, n2: 0, n3: 1 }
}

fn make_pair() -> (Box<Tunn>, Box<Tunn>) {
    let server_secret_hex = hex(&[0x11u8; 32]);
    let client_secret_hex = hex(&[0x22u8; 32]);
    let server_secret = X25519SecretKey::from_str(&server_secret_hex).unwrap();
    let client_secret = X25519SecretKey::from_str(&client_secret_hex).unwrap();
    let server_public_hex = hex(server_secret.public_key().as_bytes());
    let client_public_hex = hex(client_secret.public_key().as_bytes());

    let server = new_tunnel(&server_secret_hex, &client_public_hex).expect("server tunnel");
    let client = Tunn::new(
        Arc::new(client_secret),
        Arc::new(X25519PublicKey::from_str(&server_public_hex).unwrap()),
        None,
        None,
        1,
        None,
    )
    .expect("client tunnel");
    (server, client)
}

#[test]
fn malformed_key_material_yields_no_tunnel() {
    assert!(new_tunnel("not a key", &hex(&[0x33u8; 32])).is_none());
    assert!(new_tunnel(&hex(&[0x33u8; 32]), "").is_none());
}

#[test]
fn garbage_datagrams_are_rejected_without_effect() {
    let (server, _client) = make_pair();
    let mut st = SessionState { ready: false };
    let cycle = process_datagram(&server, &peer(), &vec![0xabu8; 10], &mut st);
    assert!(!cycle.end_session);
    assert!(cycle.to_send.is_empty());
    assert!(!st.ready);
}

#[test]
fn terminate_step_ends_the_session_and_sends_nothing() {
    let (server, _client) = make_pair();
    let mut st = SessionState { ready: true };
    let cycle = perform_step(&server, &peer(), Step::Terminate, &mut st);
    assert!(cycle.end_session);
    assert!(cycle.to_send.is_empty());
    assert!(st.ready);
}

#[test]
fn idle_and_mark_ready_steps_send_nothing() {
    let (server, _client) = make_pair();
    let mut st = SessionState { ready: false };
    let cycle = perform_step(&server, &peer(), Step::Idle, &mut st);
    assert!(!cycle.end_session);
    assert!(cycle.to_send.is_empty());
    assert!(!st.ready);
    let cycle = perform_step(&server, &peer(), Step::MarkReady, &mut st);
    assert!(!cycle.end_session);
    assert!(cycle.to_send.is_empty());
    assert!(st.ready);
}

#[test]
fn send_and_drain_puts_the_emission_first() {
    let (server, _client) = make_pair();
    let mut st = SessionState { ready: true };
    let emission = vec![7u8; 16];
    let cycle = perform_step(&server, &peer(), Step::SendAndDrain(emission.clone()), &mut st);
    assert!(!cycle.end_session);
    // a fresh tunnel has nothing queued: the emission alone is sent
    assert_eq!(cycle.to_send, vec![emission]);
}

#[test]
fn unsound_local_payloads_end_the_session_cleanly() {
    let (server, _client) = make_pair();
    let mut st = SessionState { ready: true };
    // too short for an address header
    let cycle = perform_step(&server, &peer(), Step::RewriteAndReturn(vec![0u8; 5]), &mut st);
    assert!(cycle.end_session);
    assert!(cycle.to_send.is_empty());
    // too large to re-enter the tunnel
    let cycle = perform_step(&server, &peer(), Step::RewriteAndReturn(vec![0u8; 2200]), &mut st);
    assert!(cycle.end_session);
    assert!(cycle.to_send.is_empty());
}

#[test]
fn handshake_then_payloads_round_trip_in_order() {
    let (server, client) = make_pair();
    let mut st = SessionState { ready: false };
    let mut buf = [0u8; 4096];
    let mut scratch = [0u8; 4096];

    // the client initiates the handshake
    let init = match client.format_handshake_initiation(&mut buf, false) {
        TunnResult::WriteToNetwork(b) => b.to_vec(),
        r => panic!("unexpected initiation result: {:?}", r),
    };

    // the server's relay answers with exactly one handshake response
    let cycle = process_datagram(&server, &peer(), &init, &mut st);
    assert!(!cycle.end_session);
    assert_eq!(cycle.to_send.len(), 1);

    // the client completes the handshake and emits its keepalive
    let keepalive = match client.decapsulate(None, &cycle.to_send[0], &mut scratch) {
        TunnResult::WriteToNetwork(b) => b.to_vec(),
        r => panic!("unexpected response result: {:?}", r),
    };

    // the keepalive is quiescent for the server: the session becomes ready
    let cycle = process_datagram(&server, &peer(), &keepalive, &mut st);
    assert!(!cycle.end_session);
    assert!(cycle.to_send.is_empty());
    assert!(st.ready);

    // payloads travel decrypt -> rewrite -> re-encrypt, bit for bit, in order
    let payloads: [&[u8]; 3] = [b"hello", b"tunnel endpoint", b""];
    let mut delivered = Vec::new();
    let mut expected = Vec::new();
    for payload in payloads {
        let packet = ipv4_packet(payload);
        let data = match client.encapsulate(&packet, &mut buf) {
            TunnResult::WriteToNetwork(b) => b.to_vec(),
            r => panic!("unexpected encapsulation result: {:?}", r),
        };
        let cycle = process_datagram(&server, &peer(), &data, &mut st);
        assert!(!cycle.end_session);
        assert_eq!(cycle.to_send.len(), 1);
        let out = match client.decapsulate(None, &cycle.to_send[0], &mut scratch) {
            TunnResult::WriteToTunnelV4(b, _) => b.to_vec(),
            r => panic!("unexpected delivery result: {:?}", r),
        };
        assert_eq!(out, swapped(&packet));
        delivered.extend_from_slice(&out);
        expected.extend_from_slice(&swapped(&packet));
    }
    assert_eq!(delivered.len(), expected.len());
    assert_eq!(delivered, expected);
    assert!(st.ready);
}
