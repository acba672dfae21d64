use gp_client::commands::{
    has_saved_password, plan_connection, profile_delete, profile_save, vpn_connect, vpn_trust_cert, ConnectInput,
    KeyringOp,
};
use gp_client::runtime::{ActiveProfile, HelperEvent, VpnRuntime};
use gp_client::settings::{Profile, ProfileStore};

fn profile(id: &str, remember: bool) -> Profile {
    Profile {
        id: id.to_string(),
        name: String::new(),
        portal: "https://vpn.example.test/".to_string(),
        username: "alice".to_string(),
        remember,
        cafile: None,
        client_cert: None,
        client_key: None,
        trusted_fingerprint: None,
        gateway: None,
        client_os: Some("Windows".to_string()),
        script: None,
        hip: false,
        requires_otp: false,
    }
}

fn input(id: &str, password: Option<&str>) -> ConnectInput {
    ConnectInput { profile_id: id.to_string(), password: password.map(|p| p.to_string()), otp: None, remember: None }
}

#[test]
fn a_new_profile_gets_an_id_and_a_name() {
    let mut store = ProfileStore { profiles: Vec::new() };
    let saved = profile_save(&mut store, profile("", true), Some("pw".to_string()), "pabc".to_string(), true).unwrap();
    assert_eq!(saved.profile.id, "pabc");
    assert_eq!(saved.profile.name, "vpn.example.test");
    assert_eq!(store.profiles.len(), 1);
    assert!(matches!(&saved.keyring[..], [KeyringOp::Store { password, .. }] if password == "pw"));
}

#[test]
fn a_profile_needs_a_portal_and_a_user() {
    let mut store = ProfileStore { profiles: Vec::new() };
    let mut p = profile("", true);
    p.username = "  ".to_string();
    assert_eq!(profile_save(&mut store, p, None, "x".to_string(), true).err().as_deref(), Some("Portal and username are required"));
    assert!(store.profiles.is_empty());
}

#[test]
fn editing_the_user_forgets_the_old_secret() {
    let mut store = ProfileStore { profiles: vec![profile("p1", false)] };
    let mut edited = profile("p1", false);
    edited.username = "bob".to_string();
    let saved = profile_save(&mut store, edited, None, "unused".to_string(), true).unwrap();
    assert_eq!(store.profiles.len(), 1);
    assert_eq!(store.profiles[0].username, "bob");
    assert!(matches!(&saved.keyring[0], KeyringOp::Delete { username, .. } if username == "alice"));
    assert!(matches!(&saved.keyring[1], KeyringOp::Delete { username, .. } if username == "bob"));
}

#[test]
fn deleting_a_profile_forgets_its_password() {
    let mut store = ProfileStore { profiles: vec![profile("p1", true), profile("p2", true)] };
    assert_eq!(profile_delete(&mut store, "p1").map(|(_, u)| u), Some("alice".to_string()));
    assert_eq!(store.profiles.len(), 1);
    assert_eq!(profile_delete(&mut store, "zz"), None);
}

#[test]
fn a_connection_uses_the_typed_or_the_saved_password() {
    let mut store = ProfileStore { profiles: vec![profile("p1", true)] };
    let plan = vpn_connect("disconnected", &mut store, input("p1", Some("typed")), true, |_, _| None).unwrap();
    assert_eq!(plan.request.password, "typed");
    assert_eq!(plan.request.client_os.as_deref(), Some("Windows"));
    assert!(matches!(&plan.keyring[..], [KeyringOp::Store { .. }]));
    let plan = vpn_connect("disconnected", &mut store, input("p1", None), true, |_, _| Some("saved".to_string())).unwrap();
    assert_eq!(plan.request.password, "saved");
    assert!(plan.keyring.is_empty());
    let missing = vpn_connect("disconnected", &mut store, input("p1", Some("")), true, |_, _| None);
    assert_eq!(missing.err().as_deref(), Some("This connection has no saved password"));
}

#[test]
fn only_one_connection_at_a_time() {
    let mut store = ProfileStore { profiles: vec![profile("p1", true)] };
    let busy = vpn_connect("connected", &mut store, input("p1", Some("x")), true, |_, _| None);
    assert_eq!(busy.err().as_deref(), Some("Another connection is already active"));
    let gone = vpn_connect("disconnected", &mut store, input("p9", Some("x")), true, |_, _| None);
    assert_eq!(gone.err().as_deref(), Some("That connection no longer exists"));
}

#[test]
fn turning_remember_off_for_an_attempt_updates_the_store() {
    let mut store = ProfileStore { profiles: vec![profile("p1", true)] };
    let mut request = input("p1", Some("typed"));
    request.remember = Some(false);
    let plan = vpn_connect("disconnected", &mut store, request, true, |_, _| None).unwrap();
    assert!(plan.store_changed);
    assert!(!store.profiles[0].remember);
    assert!(matches!(&plan.keyring[..], [KeyringOp::Delete { .. }]));
}

#[test]
fn trusting_a_certificate_stores_it_on_the_profile() {
    let mut store = ProfileStore { profiles: vec![profile("p1", true)] };
    let mut runtime = VpnRuntime::new();
    assert_eq!(
        vpn_trust_cert(&runtime, &mut store).err().as_deref(),
        Some("There is no certificate awaiting a trust decision")
    );
    runtime.handle(HelperEvent::CertUntrusted { fingerprint: "pin-sha256:f".to_string(), details: String::new() });
    assert_eq!(vpn_trust_cert(&runtime, &mut store).err().as_deref(), Some("There is no connection in progress"));
    runtime.set_profile(Some(ActiveProfile { id: "p1".to_string(), name: "W".to_string() }));
    assert_eq!(vpn_trust_cert(&runtime, &mut store), Ok(true));
    assert_eq!(store.profiles[0].trusted_fingerprint.as_deref(), Some("pin-sha256:f"));
}

#[test]
fn a_saved_password_shows_only_when_remembered() {
    assert!(has_saved_password(&profile("p", true), true, true));
    assert!(!has_saved_password(&profile("p", false), true, true));
    assert!(!has_saved_password(&profile("p", true), false, true));
}

#[test]
fn the_keyring_answer_decides_a_connection_without_a_typed_password() {
    let none = plan_connection(profile("p1", true), false, None, None, &None, true);
    assert_eq!(none.err().as_deref(), Some("This connection has no saved password"));
    let saved =
        plan_connection(profile("p1", false), true, None, Some("kept".to_string()), &Some("123".to_string()), true)
            .unwrap();
    assert_eq!(saved.request.password, "kept");
    assert_eq!(saved.request.otp, "123");
    assert_eq!(saved.request.portal, "https://vpn.example.test/");
    assert_eq!(saved.active.id, "p1");
    assert!(saved.store_changed);
    assert!(matches!(&saved.keyring[..], [KeyringOp::Delete { username, .. }] if username == "alice"));
}

#[test]
fn a_typed_password_is_kept_only_where_a_keyring_is() {
    let plan = plan_connection(profile("p1", true), false, Some("typed".to_string()), None, &None, false).unwrap();
    assert_eq!(plan.request.password, "typed");
    assert!(plan.keyring.is_empty());
    let plan =
        plan_connection(profile("p1", true), false, Some("typed".to_string()), Some("old".to_string()), &None, true)
            .unwrap();
    assert_eq!(plan.request.password, "typed");
    assert!(matches!(&plan.keyring[..], [KeyringOp::Store { password, .. }] if password == "typed"));
}

#[test]
fn a_busy_connection_leaves_the_profiles_alone() {
    let mut store = ProfileStore { profiles: vec![profile("p1", true)] };
    let mut request = input("p1", None);
    request.remember = Some(false);
    let busy = vpn_connect("connecting", &mut store, request, true, |_, _| Some("saved".to_string()));
    assert!(busy.is_err());
    assert!(store.profiles[0].remember);
}
