use gp_client::runtime::{ActiveProfile, Effect, Gateway, HelperEvent, PendingPrompt, VpnRuntime};
use gp_client::stats::NetworkTotals;

#[test]
fn a_certificate_question_outlives_the_window() {
    let mut runtime = VpnRuntime::new();
    let effects = runtime.handle(HelperEvent::CertUntrusted {
        fingerprint: "pin-sha256:f".to_string(),
        details: "self-signed".to_string(),
    });
    assert_eq!(effects.len(), 1);
    assert_eq!(runtime.last_fingerprint().as_deref(), Some("pin-sha256:f"));
    assert!(matches!(runtime.pending(), Some(PendingPrompt::Certificate { fingerprint, .. }) if fingerprint == "pin-sha256:f"));
}

#[test]
fn only_a_selecting_gateway_list_is_a_question() {
    let mut runtime = VpnRuntime::new();
    let list = vec![Gateway { address: "gw1".to_string(), name: "Ha Noi".to_string() }];
    runtime.handle(HelperEvent::Gateways { list: list.clone(), selecting: false });
    assert!(runtime.pending().is_none());
    runtime.handle(HelperEvent::Gateways { list, selecting: true });
    assert!(matches!(runtime.pending(), Some(PendingPrompt::Gateways { list }) if list.len() == 1));
}

#[test]
fn an_error_withdraws_the_question() {
    let mut runtime = VpnRuntime::new();
    runtime.handle(HelperEvent::MfaChallenge { message: "Code?".to_string() });
    assert!(runtime.pending().is_some());
    let effects = runtime.handle(HelperEvent::Error { msg: "failed".to_string() });
    assert!(runtime.pending().is_none());
    assert!(matches!(&effects[0], Effect::Error { msg } if msg == "failed"));
}

#[test]
fn disconnecting_forgets_the_connection_and_saves_the_totals() {
    let mut runtime = VpnRuntime::new();
    runtime.set_profile(Some(ActiveProfile { id: "p1".to_string(), name: "Work".to_string() }));
    runtime.handle(HelperEvent::Connected {
        ifname: "tun0".to_string(),
        addr: Some("10.0.0.2".to_string()),
        dns: vec!["10.0.0.1".to_string()],
        gateway: "Ha Noi".to_string(),
    });
    assert_eq!(runtime.connection().map(|c| c.ifname), Some("tun0".to_string()));
    let effects = runtime.handle(HelperEvent::State { state: "disconnected".to_string() });
    assert!(matches!(effects[0], Effect::PersistStats));
    assert!(matches!(&effects[1], Effect::PublishState { state, profile_id } if state == "disconnected" && profile_id.as_deref() == Some("p1")));
    assert!(runtime.connection().is_none());
    assert_eq!(runtime.state(), "disconnected");
}

#[test]
fn traffic_is_counted_only_while_a_session_is_tracked() {
    let mut runtime = VpnRuntime::new();
    let stats = HelperEvent::Stats { rx_bytes: 10, tx_bytes: 5, rx_packets: 1, tx_packets: 1 };
    assert!(runtime.handle(stats).is_empty());
    runtime.start_stats("p1".to_string(), NetworkTotals { rx_bytes: 100, ..Default::default() });
    let effects = runtime.handle(HelperEvent::Stats { rx_bytes: 10, tx_bytes: 5, rx_packets: 1, tx_packets: 1 });
    match &effects[0] {
        Effect::Stats { session, lifetime, .. } => {
            assert_eq!(session.rx_bytes, 10);
            assert_eq!(lifetime.rx_bytes, 110);
        }
        _ => panic!("expected statistics"),
    }
    assert_eq!(runtime.persisted_stats().map(|(id, t)| (id, t.rx_bytes)), Some(("p1".to_string(), 110)));
}

#[test]
fn the_helper_exiting_leaves_the_runtime_idle() {
    let mut runtime = VpnRuntime::new();
    runtime.set_profile(Some(ActiveProfile { id: "p1".to_string(), name: "Work".to_string() }));
    runtime.handle(HelperEvent::State { state: "connected".to_string() });
    let effects = runtime.helper_exited();
    assert_eq!(effects.len(), 2);
    assert!(runtime.profile().is_none());
    assert_eq!(runtime.status().state, "disconnected");
}

#[test]
fn a_diagnostic_line_changes_nothing_and_is_tagged_with_its_level() {
    let mut runtime = VpnRuntime::new();
    runtime.handle(HelperEvent::State { state: "connecting".to_string() });
    runtime.handle(HelperEvent::MfaChallenge { message: "Code?".to_string() });
    let effects = runtime.handle(HelperEvent::Log { level: "info".to_string(), msg: "hello".to_string() });
    assert!(matches!(&effects[..], [Effect::Diagnostic(line)] if line == "[gp-helper/info] hello"));
    assert!(matches!(&runtime.pending, Some(PendingPrompt::Mfa { message }) if message == "Code?"));
    assert_eq!(runtime.state, "connecting");
}
