use gp_client::helper::{
    auth_request, dispatch, hip_notice, progress_level, progress_text, timeout_message, tunnel_cert_answer,
    Attempt, Command, ConnectRequest, Dispatch, Prompts, TrustStore,
};
use gp_client::profile::ClientOs;
use gp_client::prompt::WaitStep;

fn connect_request() -> ConnectRequest {
    ConnectRequest {
        portal: "vpn.example.com".to_string(),
        username: "alice".to_string(),
        password: "secret".to_string(),
        otp: String::new(),
        gateway: None,
        client_os: Some("windows".to_string()),
        cafile: Some("/ca.pem".to_string()),
        client_cert: None,
        client_key: None,
        trusted_fingerprint: Some("pin-sha256:x".to_string()),
        script: None,
        hip: false,
        timeout_secs: None,
        verbose: false,
    }
}

#[test]
fn only_the_first_failure_is_reported() {
    let mut attempt = Attempt::new();
    assert!(attempt.fail("portal unreachable".to_string()));
    assert!(!attempt.fail("cancelled".to_string()));
    assert_eq!(attempt.failure.as_deref(), Some("portal unreachable"));
}

#[test]
fn the_trust_store_holds_each_fingerprint_once() {
    let mut store = TrustStore::new();
    store.seed(Some(String::new()));
    assert!(store.all().is_empty());
    store.seed(Some("pin-sha256:a".to_string()));
    store.add("pin-sha256:a".to_string());
    store.add("pin-sha256:b".to_string());
    store.add(String::new());
    assert_eq!(store.all(), vec!["pin-sha256:a".to_string(), "pin-sha256:b".to_string()]);
    assert!(store.contains("pin-sha256:b"));
}

#[test]
fn an_accepted_tunnel_certificate_is_remembered() {
    let mut store = TrustStore::new();
    assert_eq!(tunnel_cert_answer(&mut store, "pin-sha256:t".to_string(), false), 1);
    assert!(!store.contains("pin-sha256:t"));
    assert_eq!(tunnel_cert_answer(&mut store, "pin-sha256:t".to_string(), true), 0);
    assert!(store.contains("pin-sha256:t"));
}

#[test]
fn the_clock_stops_while_a_question_is_on_screen() {
    let mut prompts = Prompts::new();
    assert!(prompts.charging());
    prompts.begin_question();
    assert!(!prompts.charging());
    prompts.end_question();
    assert!(prompts.charging());
}

#[test]
fn a_disconnect_withdraws_every_question() {
    let mut prompts = Prompts::new();
    assert!(matches!(prompts.otp.wait(), WaitStep::Blocked));
    assert!(matches!(dispatch(&mut prompts, Command::Disconnect, true), Dispatch::Stop));
    assert!(matches!(prompts.otp.poll(), WaitStep::Cancelled));
    assert!(prompts.trust.is_cancelled());
    prompts.reset_all();
    assert!(prompts.gateway.is_idle());
}

#[test]
fn answers_go_to_the_prompt_that_asked() {
    let mut prompts = Prompts::new();
    assert!(matches!(prompts.otp.wait(), WaitStep::Blocked));
    assert!(matches!(dispatch(&mut prompts, Command::TrustCert, true), Dispatch::Answered { wake: false }));
    assert!(matches!(
        dispatch(&mut prompts, Command::SubmitOtp { otp: "42".to_string() }, true),
        Dispatch::Answered { wake: true }
    ));
    assert!(matches!(prompts.otp.poll(), WaitStep::Answered(code) if code == "42"));
}

#[test]
fn a_second_connection_is_refused_while_one_runs() {
    let mut prompts = Prompts::new();
    match dispatch(&mut prompts, Command::Connect(connect_request()), true) {
        Dispatch::Refuse(message) => assert_eq!(message, "A VPN connection is already active"),
        _ => panic!("expected a refusal"),
    }
    assert!(matches!(dispatch(&mut prompts, Command::Connect(connect_request()), false), Dispatch::Start(_)));
}

#[test]
fn a_connection_request_becomes_a_login() {
    let login = auth_request(&connect_request());
    assert_eq!(login.server, "vpn.example.com");
    assert_eq!(login.client_os, ClientOs::Windows);
    assert_eq!(login.tls.cafile.as_deref(), Some("/ca.pem"));
    assert_eq!(login.tls.trusted_fingerprint.as_deref(), Some("pin-sha256:x"));
}

#[test]
fn progress_messages_are_levelled_and_trimmed() {
    assert_eq!(progress_level(0), "error");
    assert_eq!(progress_level(-1), "error");
    assert_eq!(progress_level(1), "info");
    assert_eq!(progress_text("  connected \n"), "connected");
}

#[test]
fn a_missing_hip_script_is_reported_only_when_asked_for() {
    assert!(hip_notice(true, false).is_some());
    assert!(hip_notice(true, true).is_none());
    assert!(hip_notice(false, false).is_none());
}

#[test]
fn the_timeout_message_names_the_budget() {
    assert_eq!(
        timeout_message(60),
        "Gave up after 60 seconds: the portal did not finish bringing the connection up"
    );
}
