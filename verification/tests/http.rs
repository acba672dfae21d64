use gp_client::error::Error;
use gp_client::http::{find_param, host_of, normalize_server, param, post_line, read_reply, set_param};

#[test]
fn bare_host_gets_https() {
    assert_eq!(normalize_server("vpn.example.com").unwrap(), "https://vpn.example.com");
}

#[test]
fn trailing_slashes_and_paths_are_dropped() {
    assert_eq!(
        normalize_server("https://vpn.example.com/global-protect/").unwrap(),
        "https://vpn.example.com"
    );
}

#[test]
fn a_custom_port_is_kept() {
    assert_eq!(
        normalize_server("https://vpn.example.com:8443").unwrap(),
        "https://vpn.example.com:8443"
    );
}

#[test]
fn plain_http_is_refused() {
    assert!(normalize_server("http://vpn.example.com").is_err());
}

#[test]
fn an_empty_address_is_a_configuration_error() {
    match normalize_server("  / ") {
        Err(Error::Config(message)) => assert_eq!(message, "no portal address was given"),
        _ => panic!("expected a configuration error"),
    }
}

#[test]
fn set_param_replaces_rather_than_duplicates() {
    let mut params = vec![param("passwd", "secret"), param("user", "alice")];
    set_param(&mut params, "passwd", "123456");
    assert_eq!(params.len(), 2);
    assert_eq!(params[0].1, "123456");
}

#[test]
fn set_param_appends_a_new_field() {
    let mut params = vec![param("user", "alice")];
    set_param(&mut params, "passwd", "123456");
    assert_eq!(params.len(), 2);
    assert_eq!(find_param(&params, "passwd").as_deref(), Some("123456"));
}

#[test]
fn host_of_strips_the_scheme_and_slashes() {
    assert_eq!(host_of("https://vpn.example.com//"), "vpn.example.com");
    assert_eq!(host_of("http://gw:443"), "gw:443");
}

#[test]
fn a_non_2xx_reply_carries_status_reason_and_body() {
    match read_reply(512, "Client version is not allowed".to_string(), "body".to_string()) {
        Err(Error::Server(e)) => {
            assert_eq!(e.status, 512);
            assert_eq!(e.reason, "Client version is not allowed");
            assert_eq!(e.body, "body");
        }
        _ => panic!("expected a server error"),
    }
    assert_eq!(read_reply(200, String::new(), "ok".to_string()).unwrap(), "ok");
}

#[test]
fn the_post_line_names_fields_but_not_values() {
    let body = vec![param("user", "alice"), param("passwd", "secret")];
    let query = vec![param("tmp", "tmp")];
    assert_eq!(post_line("https://p/x", &query, &body), "POST https://p/x [user, passwd, tmp]");
}

#[test]
fn a_base_url_is_https_and_its_bare_host() {
    for typed in ["vpn.example.com", " https://vpn.example.com:8443// ", "VPN.Example.com/"] {
        let base = normalize_server(typed).unwrap();
        let host = host_of(&base);
        assert_eq!(format!("https://{host}"), base);
        assert!(!host.is_empty());
        assert!(!host.contains('/'));
    }
}
