use gp_client::credential::Credential;
use gp_client::http::Params;
use gp_client::profile::{ClientOs, Profile};

fn profile() -> Profile {
    Profile {
        client_os: ClientOs::Linux,
        os_version: "Linux".to_string(),
        client_version: "6.3.3-619".to_string(),
        computer: "host".to_string(),
        host_id: "id".to_string(),
        serialno: "serial".to_string(),
        user_agent: "PAN GlobalProtect".to_string(),
    }
}

fn find<'a>(params: &'a Params, key: &str) -> Option<&'a str> {
    params.iter().find(|(name, _)| name == key).map(|(_, value)| value.as_str())
}

#[test]
fn a_password_login_sends_empty_cookie_fields() {
    let params = Credential::password("alice", "secret").params(&profile());
    assert_eq!(find(&params, "user"), Some("alice"));
    assert_eq!(find(&params, "passwd"), Some("secret"));
    assert_eq!(find(&params, "portal-userauthcookie"), Some(""));
}

#[test]
fn a_cookie_login_without_a_password_uses_the_saml_placeholder() {
    let credential = Credential::PortalCookie {
        username: "alice".to_string(),
        password: None,
        user_auth_cookie: Some("cookie".to_string()),
        prelogon_user_auth_cookie: None,
    };
    let params = credential.params(&profile());
    assert_eq!(find(&params, "passwd"), Some("SAMLPASS"));
    assert_eq!(find(&params, "portal-userauthcookie"), Some("cookie"));
    assert_eq!(find(&params, "portal-prelogonuserauthcookie"), Some("empty"));
}

#[test]
fn a_cookie_login_reuses_the_portal_password_when_there_is_one() {
    let credential = Credential::PortalCookie {
        username: "alice".to_string(),
        password: Some("secret".to_string()),
        user_auth_cookie: None,
        prelogon_user_auth_cookie: None,
    };
    assert_eq!(find(&credential.params(&profile()), "passwd"), Some("secret"));
}

#[test]
fn zeroizing_empties_the_password_and_keeps_the_user() {
    let mut credential = Credential::password("alice", "secret");
    credential.zeroize();
    assert_eq!(credential.username(), "alice");
    assert_eq!(find(&credential.params(&profile()), "passwd"), Some(""));
}

#[test]
fn a_credential_is_shown_without_its_password() {
    let credential = Credential::password("alice", "s3cret");
    let shown = credential.redacted();
    assert_eq!(shown, r#"Credential { username: "alice", password: "<redacted>" }"#);
    assert_eq!(shown, format!("Credential {{ username: {:?}, password: {:?} }}", "alice", "<redacted>"));
    assert!(!shown.contains("s3cret"));
    let quoted = Credential::password("a\"b\\c", "x").redacted();
    assert_eq!(quoted, format!("Credential {{ username: {:?}, password: \"<redacted>\" }}", "a\"b\\c"));
}
