use gp_client::error::Error;
use gp_client::prelogin::{build_params, parse, Endpoint};
use gp_client::profile::{ClientOs, Profile};

fn profile(client_os: ClientOs) -> Profile {
    Profile {
        client_os,
        os_version: "Linux Ubuntu 24.04".to_string(),
        client_version: "6.3.3-619".to_string(),
        computer: "test-host".to_string(),
        host_id: "01234567-89ab-cdef-0123-456789abcdef".to_string(),
        serialno: "VMware-00".to_string(),
        user_agent: "PAN GlobalProtect".to_string(),
    }
}

#[test]
fn linux_sends_parameters_in_the_body() {
    let (query, body) = build_params(&profile(ClientOs::Linux), Endpoint::Portal);
    assert!(query.is_empty());
    assert!(body.iter().any(|(key, value)| key == "host-id" && !value.is_empty()));
    assert!(body.iter().any(|(key, value)| key == "default-browser" && value == "-10"));
}

#[test]
fn windows_sends_parameters_in_the_query_with_kerberos() {
    let (query, body) = build_params(&profile(ClientOs::Windows), Endpoint::Gateway);
    assert!(body.is_empty());
    assert!(query.iter().any(|(key, _)| key == "kerberos-support"));
    assert!(query.iter().any(|(key, value)| key == "default-browser" && value == "0"));
}

#[test]
fn a_mac_asks_for_kerberos_but_keeps_the_body() {
    let (query, body) = build_params(&profile(ClientOs::Mac), Endpoint::Portal);
    assert_eq!(query.len(), 1);
    assert_eq!(body.len(), 9);
}

#[test]
fn labels_are_read_from_the_response() {
    let body = r#"<prelogin-response><status>Success</status>
			<authentication-message>Enter login credentials</authentication-message>
			<username-label>Username</username-label>
			<password-label>Password</password-label>
			<region>VN</region></prelogin-response>"#;
    let prelogin = parse(body).unwrap();
    assert_eq!(prelogin.message.as_deref(), Some("Enter login credentials"));
    assert_eq!(prelogin.password_label.as_deref(), Some("Password"));
    assert_eq!(prelogin.region.as_deref(), Some("VN"));
}

#[test]
fn a_saml_portal_is_refused_with_a_clear_message() {
    let body = r#"<prelogin-response><status>Success</status>
			<saml-auth-method>REDIRECT</saml-auth-method>
			<saml-request>PHNhbWw+</saml-request></prelogin-response>"#;
    let error = parse(body).unwrap_err();
    assert!(matches!(error, Error::Unsupported(message) if message.contains("SAML")));
}

#[test]
fn a_failed_status_is_an_auth_error_with_the_message() {
    let body = r#"<prelogin-response><status>Error</status><msg>Portal does not exist</msg></prelogin-response>"#;
    match parse(body) {
        Err(Error::Auth(message)) => assert_eq!(message, "Portal does not exist"),
        _ => panic!("expected an auth error"),
    }
}

#[test]
fn windows_puts_kerberos_first_then_the_nine_parameters() {
    let (query, body) = build_params(&profile(ClientOs::Windows), Endpoint::Portal);
    assert!(body.is_empty());
    let names: Vec<&str> = query.iter().map(|(key, _)| key.as_str()).collect();
    assert_eq!(
        names,
        vec![
            "kerberos-support", "tmp", "clientVer", "clientos", "os-version", "host-id", "ipv6-support",
            "default-browser", "cas-support", "data",
        ]
    );
    assert_eq!(query[3].1, "Windows");
    assert_eq!(query[7].1, "-10");
}
