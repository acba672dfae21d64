use gp_client::credential::Credential;
use gp_client::error::Error;
use gp_client::gateway::{build_params, parse, Login, LoginRequest};
use gp_client::http::Params;
use gp_client::profile::{ClientOs, Profile};

fn profile() -> Profile {
    Profile {
        client_os: ClientOs::Linux,
        os_version: "Linux Ubuntu 24.04".to_string(),
        client_version: "6.3.3-619".to_string(),
        computer: "test-host".to_string(),
        host_id: "01234567-89ab-cdef-0123-456789abcdef".to_string(),
        serialno: "VMware-00".to_string(),
        user_agent: "PAN GlobalProtect".to_string(),
    }
}

fn request(otp: Option<&str>) -> LoginRequest {
    LoginRequest {
        credential: Credential::password("alice", "secret"),
        profile: profile(),
        gateway_host: "nonexistent.invalid.test".to_string(),
        gateway_name: Some("Ha Noi".to_string()),
        input_str: String::new(),
        otp: otp.map(|o| o.to_string()),
        selected_manually: false,
    }
}

fn find<'a>(params: &'a Params, key: &str) -> Option<&'a str> {
    params.iter().find(|(name, _)| name == key).map(|(_, value)| value.as_str())
}

fn jnlp(arguments: &[String]) -> String {
    let inner: String = arguments.iter().map(|value| format!("<argument>{value}</argument>")).collect();
    format!("<jnlp><application-desc>{}</application-desc></jnlp>", inner)
}

#[test]
fn the_body_carries_the_fields_openconnect_leaves_out() {
    let body = build_params(&request(None), None, None);
    assert_eq!(find(&body, "clientgpversion"), Some("6.3.3-619"));
    assert_eq!(find(&body, "host-id"), Some("01234567-89ab-cdef-0123-456789abcdef"));
    assert_eq!(find(&body, "serialno"), Some("VMware-00"));
    assert_eq!(find(&body, "computer"), Some("test-host"));
    assert_eq!(find(&body, "gw"), Some("nonexistent.invalid.test"));
    assert_eq!(find(&body, "gateway-name"), Some("Ha Noi"));
    assert_eq!(find(&body, "selection-type"), Some("auto"));
}

#[test]
fn an_unresolvable_gateway_falls_back_to_its_host_name() {
    let body = build_params(&request(None), None, None);
    assert_eq!(find(&body, "server"), Some("nonexistent.invalid.test"));
}

#[test]
fn a_resolved_gateway_reports_its_address_and_the_local_one() {
    let body = build_params(&request(None), Some("192.0.2.7".to_string()), Some("10.0.0.5".to_string()));
    assert_eq!(find(&body, "server"), Some("192.0.2.7"));
    assert_eq!(find(&body, "client-ip"), Some("10.0.0.5"));
    assert_eq!(body.last().map(|(k, _)| k.as_str()), Some("client-ip"));
}

#[test]
fn an_otp_replaces_the_password_instead_of_being_appended() {
    let body = build_params(&request(Some("123456")), None, None);
    assert_eq!(find(&body, "passwd"), Some("123456"));
    assert_eq!(body.iter().filter(|(key, _)| key == "passwd").count(), 1);
}

#[test]
fn a_challenge_response_is_recognised() {
    let body = r#"<html><body><script>
			var respStatus = "Challenge";
			var respMsg = "Enter the code from your token";
			document.getElementById('inputStr').value = "abc-123";
			inputStr.value = "abc-123";
			</script></body></html>"#;
    let Login::Challenge(challenge) = parse(body, "test-host").unwrap() else {
        panic!("expected a challenge");
    };
    assert_eq!(challenge.message, "Enter the code from your token");
    assert_eq!(challenge.input_str, "abc-123");
}

#[test]
fn a_challenge_without_a_message_gets_a_default_one() {
    let body = "<html>Challenge</html>";
    let Login::Challenge(challenge) = parse(body, "test-host").unwrap() else {
        panic!("expected a challenge");
    };
    assert_eq!(challenge.message, "Additional authentication is required");
    assert_eq!(challenge.input_str, "");
}

#[test]
fn the_cookie_is_built_from_the_positional_arguments() {
    let mut arguments = vec![String::new(); 20];
    arguments[1] = "AUTHCOOKIE".to_string();
    arguments[2] = "PERSIST".to_string();
    arguments[3] = "GP-Portal".to_string();
    arguments[4] = "alice".to_string();
    arguments[7] = "example.com".to_string();
    arguments[15] = "10.1.2.3".to_string();
    let body = jnlp(&arguments);
    let Login::Cookie(cookie) = parse(&body, "test-host").unwrap() else {
        panic!("expected a cookie");
    };
    assert_eq!(
        cookie,
        "authcookie=AUTHCOOKIE&persistent-cookie=PERSIST&portal=GP-Portal&user=alice\
		 &domain=example.com&preferred-ip=10.1.2.3&computer=test-host"
    );
}

#[test]
fn a_reply_without_an_auth_cookie_is_an_error() {
    let body = "<jnlp><application-desc><argument>x</argument></application-desc></jnlp>";
    assert!(matches!(parse(body, "host"), Err(Error::Parse(_))));
}

#[test]
fn a_reply_without_a_user_name_is_an_error() {
    let mut arguments = vec![String::new(); 5];
    arguments[1] = "AUTHCOOKIE".to_string();
    arguments[4] = "(null)".to_string();
    let body = jnlp(&arguments);
    match parse(&body, "host") {
        Err(Error::Parse(message)) => assert_eq!(message, "the gateway did not return a user name"),
        _ => panic!("expected a parse error"),
    }
}

#[test]
fn an_empty_login_reply_is_an_error() {
    match parse("   \n", "host") {
        Err(Error::Parse(message)) => assert_eq!(message, "the gateway sent an empty login response"),
        _ => panic!("expected a parse error"),
    }
}

#[test]
fn cookie_values_are_url_encoded() {
    let mut arguments = vec![String::new(); 20];
    arguments[1] = "a+b/c=".to_string();
    arguments[4] = "alice@example.com".to_string();
    let body = jnlp(&arguments);
    let Login::Cookie(cookie) = parse(&body, "host").unwrap() else {
        panic!("expected a cookie");
    };
    assert!(cookie.starts_with("authcookie=a%2Bb%2Fc%3D&"));
    assert!(cookie.contains("user=alice%40example.com"));
}

#[test]
fn the_gateway_to_resolve_is_its_bare_host() {
    assert_eq!(gp_client::gateway::resolve_target("https://gw.example.com:4443/"), "gw.example.com");
}

#[test]
fn no_field_name_occurs_twice_and_the_gateway_fields_are_read_back() {
    let mut manual = request(Some("654321"));
    manual.selected_manually = true;
    manual.input_str = "abc".to_string();
    let body = build_params(&manual, Some("192.0.2.7".to_string()), Some("10.0.0.5".to_string()));
    assert_eq!(body.len(), 29);
    for (i, (a, _)) in body.iter().enumerate() {
        for (b, _) in body.iter().skip(i + 1) {
            assert_ne!(a, b);
        }
    }
    let names: Vec<&str> = body.iter().take(6).map(|(name, _)| name.as_str()).collect();
    assert_eq!(
        names,
        vec!["user", "passwd", "prelogin-cookie", "portal-userauthcookie", "portal-prelogonuserauthcookie", "token"]
    );
    assert_eq!(find(&body, "passwd"), Some("654321"));
    assert_eq!(find(&body, "gateway-name"), Some("Ha Noi"));
    assert_eq!(find(&body, "selection-type"), Some("manual"));
    assert_eq!(find(&body, "host"), Some("nonexistent.invalid.test"));
    assert_eq!(find(&body, "gw"), Some("nonexistent.invalid.test"));
    assert_eq!(find(&body, "inputStr"), Some("abc"));
}

#[test]
fn a_gateway_without_a_name_is_named_by_its_host() {
    let mut unnamed = request(None);
    unnamed.gateway_name = None;
    let body = build_params(&unnamed, None, None);
    assert_eq!(body.len(), 28);
    assert_eq!(find(&body, "gateway-name"), Some("nonexistent.invalid.test"));
    assert_eq!(find(&body, "selection-type"), Some("auto"));
}
