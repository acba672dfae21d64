use gp_client::openconnect::{
    c_string, call, configuration, find_hip_script, find_vpnc_script, first_executable, tunnel_script, Options,
    Setting,
};

fn options() -> Options {
    Options {
        gateway_url: "https://gw.example.com".to_string(),
        cookie: "authcookie=A".to_string(),
        computer: "host".to_string(),
        reported_os: "linux-64".to_string(),
        cafile: Some(String::new()),
        client_cert: Some("/c.pem".to_string()),
        client_key: Some("/k.pem".to_string()),
        script: None,
        hip_script: Some("/hip.sh".to_string()),
        log_level: 1,
    }
}

#[test]
fn script_discovery_only_returns_executables() {
    assert_eq!(find_vpnc_script(|_| false), None);
    assert_eq!(find_vpnc_script(|p| p == "/etc/vpnc/vpnc-script"), Some("/etc/vpnc/vpnc-script"));
    assert_eq!(find_hip_script(|p| p.ends_with("hipreport.sh")), Some("/usr/local/libexec/gpclient/hipreport.sh"));
}

#[test]
fn the_first_executable_location_wins() {
    let locations = vec!["/a", "/b", "/c"];
    assert_eq!(first_executable(&locations, |p| p != "/a"), Some("/b"));
}

#[test]
fn a_configured_script_is_used_as_it_is() {
    assert_eq!(tunnel_script(&Some("/my/script".to_string()), |_| false).unwrap(), "/my/script");
    let error = tunnel_script(&Some(String::new()), |_| false).unwrap_err();
    assert!(error.starts_with("no vpnc-script found. Install the vpnc-scripts package, or set one in settings. Looked in: /usr/local/libexec/gpclient/vpnc-script, "));
    assert!(error.ends_with(", /usr/libexec/vpnc-scripts/vpnc-script"));
}

#[test]
fn the_configuration_follows_the_options_in_order() {
    let settings = configuration(&options()).unwrap();
    let names: Vec<&str> = settings.iter().map(|s| s.description()).collect();
    assert_eq!(
        names,
        vec![
            "set protocol",
            "set reported OS",
            "set log level",
            "set client certificate",
            "parse gateway URL",
            "set session cookie",
            "set local host name",
            "set up HIP report script"
        ]
    );
    assert!(matches!(&settings[0], Setting::Protocol(p) if p == "gp"));
}

#[test]
fn a_nul_byte_cannot_reach_libopenconnect() {
    let mut bad = options();
    bad.cookie = "a\0b".to_string();
    assert_eq!(configuration(&bad).err().as_deref(), Some("value contains an unsupported NUL byte"));
    assert!(c_string("ok").is_ok());
}

#[test]
fn a_failed_call_names_what_was_being_done() {
    assert!(call("set CA file", 0).is_ok());
    assert_eq!(call("set CA file", -22).unwrap_err(), "set CA file failed: -22");
}
