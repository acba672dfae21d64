use gp_client::error::Error;
use gp_client::xml::{check_for_error, parse};

#[test]
fn an_error_response_becomes_an_auth_error() {
    let body = r#"<response status="error"><error>Invalid username or password</error></response>"#;
    let error = check_for_error(body).unwrap_err();
    assert!(matches!(error, Error::Auth(message) if message == "Invalid username or password"));
}

#[test]
fn a_success_response_passes() {
    assert!(check_for_error(r#"<response status="success"><foo/></response>"#).is_ok());
}

#[test]
fn a_bare_string_failure_is_reported_verbatim() {
    let error = check_for_error("errors getting SSL/VPN config").unwrap_err();
    assert!(matches!(error, Error::Auth(message) if message == "errors getting SSL/VPN config"));
}

#[test]
fn an_empty_response_is_a_parse_error() {
    let error = check_for_error("  ").unwrap_err();
    assert!(matches!(error, Error::Parse(message) if message == "the server sent an empty response"));
}

#[test]
fn text_reads_nested_values() {
    let document = parse("<a><b><c> hello </c></b></a>").unwrap();
    let root = document.root_element().unwrap();
    assert_eq!(document.text(root, "c").as_deref(), Some("hello"));
    assert_eq!(document.text(root, "missing"), None);
}

#[test]
fn malformed_xml_is_a_parse_error() {
    assert!(matches!(parse("<a><b></a>"), Err(Error::Parse(_))));
}
