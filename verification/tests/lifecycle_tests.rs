use emp_tunnel::addr::{BindAddr, IpOctets};
use emp_tunnel::lifecycle::{start_decision, stop_emotional_damage, Registry, StartDecision};
use std::sync::mpsc::channel;

#[test]
fn fresh_registry_launches_a_valid_address() {
    let reg = Registry::new();
    match start_decision(&reg, "127.0.0.1:51820") {
        StartDecision::Launch(b) => {
            assert_eq!(
                b,
                BindAddr { ip: IpOctets { n0: 127, n1: 0, n2: 0, n3: 1 }, port: 51820 }
            );
        }
        _ => panic!("expected a launch decision"),
    }
}

#[test]
fn malformed_addresses_are_rejected_without_a_launch() {
    let reg = Registry::new();
    assert!(matches!(start_decision(&reg, "not an address"), StartDecision::InvalidAddress));
    assert!(matches!(start_decision(&reg, "10.0.0:80"), StartDecision::InvalidAddress));
    assert!(matches!(start_decision(&reg, "10.0.0.1:"), StartDecision::InvalidAddress));
    assert!(!reg.is_busy());
}

#[test]
fn second_start_reports_already_running() {
    let mut reg = Registry::new();
    match start_decision(&reg, "127.0.0.1:51820") {
        StartDecision::Launch(_) => {
            let (tx, rx) = channel::<()>();
            reg.install(tx);
            // the first session's receiver is still connected and undisturbed
            assert!(matches!(
                start_decision(&reg, "127.0.0.1:51820"),
                StartDecision::AlreadyRunning
            ));
            assert!(matches!(
                start_decision(&reg, "not an address"),
                StartDecision::AlreadyRunning
            ));
            assert!(rx.try_recv().is_err());
        }
        _ => panic!("expected a launch decision"),
    }
}

#[test]
fn stop_signals_and_clears_the_handle() {
    let mut reg = Registry::new();
    let (tx, rx) = channel::<()>();
    reg.install(tx);
    assert!(reg.is_busy());
    stop_emotional_damage(&mut reg);
    assert!(!reg.is_busy());
    assert!(rx.try_recv().is_ok());
}

#[test]
fn stop_without_a_session_is_a_no_op() {
    let mut reg = Registry::new();
    stop_emotional_damage(&mut reg);
    assert!(!reg.is_busy());
    stop_emotional_damage(&mut reg);
    assert!(!reg.is_busy());
}

#[test]
fn start_works_again_after_stop() {
    let mut reg = Registry::new();
    let (tx, _rx) = channel::<()>();
    reg.install(tx);
    stop_emotional_damage(&mut reg);
    assert!(matches!(start_decision(&reg, "0.0.0.0:3000"), StartDecision::Launch(_)));
}
