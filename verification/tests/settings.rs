use gp_client::settings::{default_name, id_from_nanos, new_id, Profile, ProfileStore};

fn profile(id: &str, name: &str) -> Profile {
    Profile {
        id: id.to_string(),
        name: name.to_string(),
        portal: "vpn.example.test".to_string(),
        username: "user".to_string(),
        remember: false,
        cafile: None,
        client_cert: None,
        client_key: None,
        trusted_fingerprint: None,
        gateway: None,
        client_os: None,
        script: None,
        hip: false,
        requires_otp: false,
    }
}

#[test]
fn profile_names_fall_back_to_the_portal_host() {
    assert_eq!(default_name("https://vpn.example.test/path/"), "vpn.example.test");
    assert_eq!(default_name(""), "New connection");
}

#[test]
fn a_default_name_drops_scheme_and_whitespace() {
    assert_eq!(default_name("  http://gw.example.test:4443  "), "gw.example.test:4443");
    assert_eq!(default_name("https:///"), "New connection");
}

#[test]
fn ids_are_the_clock_in_hexadecimal() {
    assert_eq!(id_from_nanos(255), "pff");
    assert_eq!(id_from_nanos(0), "p0");
    let id = new_id();
    assert!(id.starts_with('p'));
    assert!(id.len() >= 2);
}

#[test]
fn the_store_finds_and_removes_by_id() {
    let mut store = ProfileStore { profiles: vec![profile("a", "A"), profile("b", "B"), profile("a", "A2")] };
    assert_eq!(store.position("b"), Some(1));
    assert_eq!(store.find("a").map(|p| p.name), Some("A".to_string()));
    assert!(store.find("zz").is_none());
    store.remove("a");
    assert_eq!(store.profiles.len(), 1);
    assert_eq!(store.profiles[0].id, "b");
}
