use gp_client::credential::Credential;
use gp_client::portal::{build_params, parse};
use gp_client::profile::{ClientOs, Profile};

fn profile() -> Profile {
    Profile {
        client_os: ClientOs::Linux,
        os_version: "Linux Ubuntu 24.04".to_string(),
        client_version: "6.3.3-619".to_string(),
        computer: "test-host".to_string(),
        host_id: "01234567-89ab-cdef-0123-456789abcdef".to_string(),
        serialno: "VMware-00".to_string(),
        user_agent: "PAN GlobalProtect".to_string(),
    }
}

#[test]
fn identity_fields_openconnect_omits_are_present() {
    let credential = Credential::password("alice", "secret");
    let body = build_params(&credential, &profile(), "https://vpn.example.com", "");
    let find = |key: &str| body.iter().find(|(name, _)| name == key).map(|(_, value)| value.as_str());
    assert_eq!(find("host-id"), Some("01234567-89ab-cdef-0123-456789abcdef"));
    assert_eq!(find("serialno"), Some("VMware-00"));
    assert_eq!(find("clientgpversion"), Some("6.3.3-619"));
    assert_eq!(find("computer"), Some("test-host"));
    assert_eq!(find("host"), Some("vpn.example.com"));
    assert_eq!(find("csc-support"), Some("no"));
}

#[test]
fn gateways_are_read_from_the_policy() {
    let body = r#"<policy>
			<portal-name>GP-Portal</portal-name>
			<version>6.2.3</version>
			<portal-userauthcookie>empty</portal-userauthcookie>
			<portal-prelogonuserauthcookie>abc123</portal-prelogonuserauthcookie>
			<gateways><external><list>
				<entry name="gw1.example.com"><description>Ha Noi</description></entry>
				<entry name="gw2.example.com:443"><description>Sai Gon</description></entry>
			</list></external></gateways>
		</policy>"#;
    let config = parse(body).unwrap();
    assert_eq!(config.gateways.len(), 2);
    assert_eq!(config.gateways[0].address, "gw1.example.com");
    assert_eq!(config.gateways[0].name, "Ha Noi");
    assert_eq!(config.gateways[1].address, "gw2.example.com:443");
    assert_eq!(config.portal_version.as_deref(), Some("6.2.3"));
    assert_eq!(config.user_auth_cookie, None);
    assert_eq!(config.prelogon_user_auth_cookie.as_deref(), Some("abc123"));
}

#[test]
fn an_entry_without_a_description_falls_back_to_its_address() {
    let body = r#"<policy><gateways><external><list>
			<entry name="gw1.example.com"/>
		</list></external></gateways></policy>"#;
    let config = parse(body).unwrap();
    assert_eq!(config.gateways[0].name, "gw1.example.com");
}

#[test]
fn a_windows_client_announces_csc_support() {
    let mut p = profile();
    p.client_os = ClientOs::Windows;
    let body = build_params(&Credential::password("alice", "secret"), &p, "https://vpn.example.com", "x");
    let find = |key: &str| body.iter().find(|(name, _)| name == key).map(|(_, value)| value.as_str());
    assert_eq!(find("csc-support"), Some("yes"));
    assert_eq!(find("inputStr"), Some("x"));
    assert_eq!(find("clientos"), Some("Windows"));
}
