use gp_client::auth::{
    authenticate, describe_prelogin, is_not_a_portal, Action, Answer, AuthFlow, AuthRequest, Phase, Question, Step,
};
use gp_client::error::{Error, ServerError};
use gp_client::prelogin::Prelogin;
use gp_client::profile::{ClientOs, Profile};
use gp_client::tls::TlsOptions;

fn profile() -> Profile {
    Profile {
        client_os: ClientOs::Linux,
        os_version: "Linux Ubuntu 24.04".to_string(),
        client_version: "6.3.3-619".to_string(),
        computer: "test-host".to_string(),
        host_id: "01234567-89ab-cdef-0123-456789abcdef".to_string(),
        serialno: "VMware-00".to_string(),
        user_agent: "PAN GlobalProtect".to_string(),
    }
}

fn request(server: &str, otp: &str, gateway: Option<&str>) -> AuthRequest {
    AuthRequest {
        server: server.to_string(),
        username: "alice".to_string(),
        password: "secret".to_string(),
        otp: otp.to_string(),
        gateway: gateway.map(|g| g.to_string()),
        client_os: ClientOs::Linux,
        tls: TlsOptions::default(),
    }
}

fn posted(step: &Step) -> (&str, Vec<(&str, &str)>) {
    match &step.action {
        Action::Post { url, query, body } => (
            url.as_str(),
            body.iter().chain(query.iter()).map(|(k, v)| (k.as_str(), v.as_str())).collect(),
        ),
        _ => panic!("expected a request"),
    }
}

fn field<'a>(fields: &[(&'a str, &'a str)], key: &str) -> Option<&'a str> {
    fields.iter().find(|(k, _)| *k == key).map(|(_, v)| *v)
}

const PRELOGIN_OK: &str = "<prelogin-response><status>Success</status><username-label>Username</username-label></prelogin-response>";

fn cookie_reply() -> String {
    let mut arguments = vec![String::new(); 20];
    arguments[1] = "AUTH".to_string();
    arguments[4] = "alice".to_string();
    let inner: String = arguments.iter().map(|v| format!("<argument>{v}</argument>")).collect();
    format!("<jnlp><application-desc>{inner}</application-desc></jnlp>")
}

const CHALLENGE: &str = "<html><script>var respStatus = \"Challenge\"; var respMsg = \"Code?\"; inputStr.value = \"tok-1\";</script></html>";

fn portal_config(entries: &str) -> String {
    format!(
        "<policy><portal-name>Corp</portal-name><portal-userauthcookie>UC</portal-userauthcookie><gateways><external><list>{entries}</list></external></gateways></policy>"
    )
}

/// Logs in through a portal that offers the given gateways, answering the
/// gateway question with `pick`.
fn through_portal(entries: &str, pick: Option<Answer>) -> (AuthFlow, Step) {
    let (mut flow, step) = authenticate(request("vpn.example.com", "", None), profile()).unwrap();
    assert_eq!(posted(&step).0, "https://vpn.example.com/global-protect/prelogin.esp");
    let step = flow.on_portal_prelogin(Ok(PRELOGIN_OK.to_string()));
    assert!(step.log.iter().any(|l| l == "Server asks for: Username"));
    assert_eq!(posted(&step).0, "https://vpn.example.com/global-protect/getconfig.esp");
    let step = flow.on_portal_config(Ok(portal_config(entries)));
    match pick {
        Some(answer) => {
            assert!(matches!(step.action, Action::Ask(Question::Gateway(_))));
            let step = flow.on_gateway_choice(answer);
            (flow, step)
        }
        None => (flow, step),
    }
}

#[test]
fn a_single_gateway_is_logged_into_with_the_portal_cookies() {
    let (mut flow, step) = through_portal(r#"<entry name="gw1.example.com"><description>Ha Noi</description></entry>"#, None);
    assert!(matches!(&step.action, Action::Resolve { host } if host == "gw1.example.com"));
    let step = flow.on_resolved(None, None);
    let (url, fields) = posted(&step);
    assert_eq!(url, "https://gw1.example.com/ssl-vpn/login.esp");
    assert_eq!(field(&fields, "portal-userauthcookie"), Some("UC"));
    assert_eq!(field(&fields, "passwd"), Some("secret"));
    assert_eq!(field(&fields, "gateway-name"), Some("Ha Noi"));
    assert_eq!(field(&fields, "selection-type"), Some("auto"));
    let step = flow.on_login_reply(Ok(cookie_reply()));
    match step.action {
        Action::Done(Ok(session)) => {
            assert_eq!(session.gateway_url, "https://gw1.example.com");
            assert_eq!(session.gateway_name, "Ha Noi");
            assert_eq!(session.cookie, "authcookie=AUTH&user=alice&computer=test-host");
            assert_eq!(session.gateways.len(), 1);
        }
        _ => panic!("expected a session"),
    }
    assert_eq!(flow.phase, Phase::Finished);
}

#[test]
fn the_gateway_is_picked_by_address_or_by_name() {
    let entries = r#"<entry name="gw1.example.com"><description>Ha Noi</description></entry><entry name="gw2.example.com"><description>Sai Gon</description></entry>"#;
    let (flow, step) = through_portal(entries, Some(Answer::Gateway("Sai Gon".to_string())));
    assert!(matches!(&step.action, Action::Resolve { host } if host == "gw2.example.com"));
    assert!(flow.selected_manually);
    let (_, step) = through_portal(entries, Some(Answer::Gateway("gw1.example.com".to_string())));
    assert!(matches!(&step.action, Action::Resolve { host } if host == "gw1.example.com"));
}

#[test]
fn an_unknown_gateway_choice_is_a_configuration_error() {
    let entries = r#"<entry name="a.example.com"/><entry name="b.example.com"/>"#;
    let (_, step) = through_portal(entries, Some(Answer::Gateway("c".to_string())));
    assert!(matches!(step.action, Action::Done(Err(Error::Config(m))) if m == "unknown gateway c"));
}

#[test]
fn cancelling_the_gateway_choice_cancels_the_login() {
    let entries = r#"<entry name="a.example.com"/><entry name="b.example.com"/>"#;
    let (_, step) = through_portal(entries, Some(Answer::Cancelled));
    assert!(matches!(step.action, Action::Done(Err(Error::Cancelled))));
}

#[test]
fn a_portal_without_gateways_is_an_auth_error() {
    let (_, step) = through_portal("", None);
    assert!(matches!(step.action, Action::Done(Err(Error::Auth(m))) if m == "the portal did not offer any gateway for this account"));
}

#[test]
fn an_address_that_is_not_a_portal_is_treated_as_a_gateway() {
    let (mut flow, _) = authenticate(request("gw.example.com", "", None), profile()).unwrap();
    let not_found = Error::Server(ServerError { status: 404, reason: String::new(), body: String::new() });
    let step = flow.on_portal_prelogin(Err(not_found));
    assert_eq!(posted(&step).0, "https://gw.example.com/ssl-vpn/prelogin.esp");
    assert_eq!(step.log, vec!["gw.example.com is not a portal, treating it as a gateway".to_string()]);
    let step = flow.on_gateway_prelogin(Ok(PRELOGIN_OK.to_string()));
    assert!(matches!(&step.action, Action::Resolve { host } if host == "gw.example.com"));
    let step = flow.on_resolved(Some("192.0.2.1".to_string()), None);
    let (_, fields) = posted(&step);
    assert_eq!(field(&fields, "server"), Some("192.0.2.1"));
    assert_eq!(field(&fields, "portal-userauthcookie"), Some(""));
}

#[test]
fn a_challenge_is_answered_with_the_code_in_place_of_the_password() {
    let (mut flow, step) = authenticate(request("vpn.example.com", "", Some("gw.example.com")), profile()).unwrap();
    assert_eq!(posted(&step).0, "https://gw.example.com/ssl-vpn/prelogin.esp");
    flow.on_gateway_prelogin(Ok(PRELOGIN_OK.to_string()));
    flow.on_resolved(None, None);
    let step = flow.on_login_reply(Ok(CHALLENGE.to_string()));
    assert!(matches!(&step.action, Action::Ask(Question::Challenge(c)) if c.message == "Code?"));
    let step = flow.on_challenge_answer(Answer::Otp("654321".to_string()));
    assert!(matches!(step.action, Action::Resolve { .. }));
    let step = flow.on_resolved(None, None);
    let (_, fields) = posted(&step);
    assert_eq!(field(&fields, "passwd"), Some("654321"));
    assert_eq!(field(&fields, "inputStr"), Some("tok-1"));
    assert_eq!(field(&fields, "selection-type"), Some("manual"));
    assert_eq!(fields.iter().filter(|(k, _)| *k == "passwd").count(), 1);
}

#[test]
fn a_code_given_up_front_is_appended_to_the_password() {
    let (mut flow, _) = authenticate(request("vpn.example.com", "111", Some("gw.example.com")), profile()).unwrap();
    flow.on_gateway_prelogin(Ok(PRELOGIN_OK.to_string()));
    let step = flow.on_resolved(None, None);
    assert_eq!(field(&posted(&step).1, "passwd"), Some("secret111"));
}

#[test]
fn the_login_gives_up_after_five_challenges() {
    let (mut flow, _) = authenticate(request("vpn.example.com", "", Some("gw.example.com")), profile()).unwrap();
    flow.on_gateway_prelogin(Ok(PRELOGIN_OK.to_string()));
    let mut posts = 0;
    loop {
        flow.on_resolved(None, None);
        posts += 1;
        flow.on_login_reply(Ok(CHALLENGE.to_string()));
        let step = flow.on_challenge_answer(Answer::Otp("1".to_string()));
        if let Action::Done(result) = step.action {
            assert!(matches!(result, Err(Error::Auth(m)) if m == "too many authentication challenges"));
            break;
        }
    }
    assert_eq!(posts, 5);
}

#[test]
fn cancelling_a_challenge_cancels_the_login() {
    let (mut flow, _) = authenticate(request("vpn.example.com", "", Some("gw.example.com")), profile()).unwrap();
    flow.on_gateway_prelogin(Ok(PRELOGIN_OK.to_string()));
    flow.on_resolved(None, None);
    flow.on_login_reply(Ok(CHALLENGE.to_string()));
    let step = flow.on_challenge_answer(Answer::Cancelled);
    assert!(matches!(step.action, Action::Done(Err(Error::Cancelled))));
}

#[test]
fn a_bad_address_fails_before_anything_is_sent() {
    assert!(matches!(authenticate(request("  ", "", None), profile()), Err(Error::Config(_))));
    assert!(matches!(authenticate(request("http://vpn.example.com", "", None), profile()), Err(Error::Config(_))));
}

#[test]
fn a_portal_error_other_than_not_a_portal_ends_the_login() {
    let (mut flow, _) = authenticate(request("vpn.example.com", "", None), profile()).unwrap();
    let step = flow.on_portal_prelogin(Err(Error::Network("timed out".to_string())));
    assert!(matches!(step.action, Action::Done(Err(Error::Network(_)))));
}

#[test]
fn portal_errors_that_mean_gateway_are_recognised() {
    assert!(is_not_a_portal(&Error::Auth("Portal does not exist".to_string())));
    assert!(is_not_a_portal(&Error::Auth("this is NOT A PORTAL".to_string())));
    assert!(!is_not_a_portal(&Error::Auth("Invalid username".to_string())));
    assert!(!is_not_a_portal(&Error::Cancelled));
}

#[test]
fn the_prelogin_is_echoed_to_the_log() {
    let prelogin = Prelogin {
        message: Some("Enter login credentials".to_string()),
        username_label: Some("Username".to_string()),
        password_label: Some("Password".to_string()),
        region: Some("VN".to_string()),
    };
    assert_eq!(
        describe_prelogin(&prelogin),
        vec![
            "Enter login credentials".to_string(),
            "Server asks for: Username, Password".to_string(),
            "Portal region: VN".to_string()
        ]
    );
}

#[test]
fn every_gateway_login_sent_is_counted_and_a_finished_login_sends_no_more() {
    let (mut flow, _) = authenticate(request("vpn.example.com", "", Some("gw.example.com")), profile()).unwrap();
    flow.on_gateway_prelogin(Ok(PRELOGIN_OK.to_string()));
    for _ in 0..2 {
        flow.on_resolved(None, None);
        flow.on_login_reply(Ok(CHALLENGE.to_string()));
        flow.on_challenge_answer(Answer::Otp("1".to_string()));
    }
    assert_eq!(flow.logins, 2);
    assert_eq!(flow.phase, Phase::Resolving);
    flow.on_resolved(None, None);
    assert_eq!(flow.logins, 3);
    let step = flow.on_login_reply(Ok(cookie_reply()));
    assert!(matches!(step.action, Action::Done(Ok(_))));
    assert_eq!(flow.phase, Phase::Finished);
    assert_eq!(flow.logins, 3);
}

#[test]
fn the_passwords_are_overwritten_once_the_login_is_over() {
    let (mut flow, _) = authenticate(request("vpn.example.com", "", Some("gw.example.com")), profile()).unwrap();
    flow.on_gateway_prelogin(Ok(PRELOGIN_OK.to_string()));
    flow.on_resolved(None, None);
    flow.on_login_reply(Ok(cookie_reply()));
    flow.wipe();
    assert_eq!(flow.phase, Phase::Finished);
    assert!(matches!(&flow.credential, gp_client::credential::Credential::Password { password, username }
        if password.is_empty() && username == "alice"));
    assert!(matches!(&flow.gateway_credential, gp_client::credential::Credential::Password { password, .. }
        if password.is_empty()));
}
