//! `prelogin.esp` - asks the portal or gateway which credentials it wants.
use vstd::prelude::*;

use crate::error::{Error, ErrorView};
use crate::http::{pairs, param, Params};
use crate::profile::{opt_view, os_name, ClientOs, Profile, ProfileView};
use crate::text::{chars_of, lower, lower_chars, same};
use crate::xml::{body_error, check_for_error, parse as parse_xml, parsed, root_of, text_of, Document, XmlNodeView};

verus! {

#[derive(Debug, Clone, Copy, PartialEq, Eq, Structural)]
pub enum Endpoint {
    Portal,
    Gateway,
}

pub open spec fn endpoint_path(e: Endpoint) -> Seq<char> {
    match e {
        Endpoint::Portal => "global-protect/prelogin.esp"@,
        Endpoint::Gateway => "ssl-vpn/prelogin.esp"@,
    }
}

/// `default-browser` values a real client sends for an embedded login form.
pub open spec fn endpoint_browser(e: Endpoint) -> Seq<char> {
    match e {
        Endpoint::Portal => "-10"@,
        Endpoint::Gateway => "0"@,
    }
}

impl Endpoint {
    pub fn path(self) -> (r: &'static str)
        ensures
            r@ == endpoint_path(self),
    {
        match self {
            Endpoint::Portal => "global-protect/prelogin.esp",
            Endpoint::Gateway => "ssl-vpn/prelogin.esp",
        }
    }

    pub fn default_browser(self) -> (r: &'static str)
        ensures
            r@ == endpoint_browser(self),
    {
        match self {
            Endpoint::Portal => "-10",
            Endpoint::Gateway => "0",
        }
    }
}

#[derive(Debug)]
pub struct Prelogin {
    pub message: Option<String>,
    pub username_label: Option<String>,
    pub password_label: Option<String>,
    pub region: Option<String>,
}

/// A `Prelogin` as plain values.
pub struct PreloginView {
    pub message: Option<Seq<char>>,
    pub username_label: Option<Seq<char>>,
    pub password_label: Option<Seq<char>>,
    pub region: Option<Seq<char>>,
}

impl View for Prelogin {
    type V = PreloginView;

    open spec fn view(&self) -> PreloginView {
        PreloginView {
            message: opt_view(self.message),
            username_label: opt_view(self.username_label),
            password_label: opt_view(self.password_label),
            region: opt_view(self.region),
        }
    }
}

/// `{"cas_embedded_browser":"yes"}`, base64 encoded, exactly as sent by the
/// official client.
pub open spec fn cas_data() -> Seq<char> {
    "eyJjYXNfZW1iZWRkZWRfYnJvd3NlciI6InllcyJ9"@
}

/// The prelogin parameters a real client sends.
pub open spec fn prelogin_fields(p: ProfileView, e: Endpoint) -> Seq<(Seq<char>, Seq<char>)> {
    seq![
        ("tmp"@, "tmp"@),
        ("clientVer"@, "4100"@),
        ("clientos"@, os_name(p.client_os)),
        ("os-version"@, p.os_version),
        ("host-id"@, p.host_id),
        ("ipv6-support"@, "yes"@),
        ("default-browser"@, endpoint_browser(e)),
        ("cas-support"@, "yes"@),
        ("data"@, cas_data()),
    ]
}

/// The query string and the form body of a prelogin request.
pub open spec fn prelogin_request(p: ProfileView, e: Endpoint) -> (
    Seq<(Seq<char>, Seq<char>)>,
    Seq<(Seq<char>, Seq<char>)>,
) {
    let kerberos = if p.client_os == ClientOs::Windows || p.client_os == ClientOs::Mac {
        seq![("kerberos-support"@, "yes"@)]
    } else {
        Seq::empty()
    };
    if p.client_os == ClientOs::Windows {
        (kerberos + prelogin_fields(p, e), Seq::empty())
    } else {
        (kerberos, prelogin_fields(p, e))
    }
}

/// Builds the prelogin parameters, as a query string and a form body.
///
/// Windows clients put them in the query string, the others in the body; the
/// split matters because some portals only look in one place.
pub fn build_params(profile: &Profile, endpoint: Endpoint) -> (r: (Params, Params))
    ensures
        (pairs(r.0@), pairs(r.1@)) == prelogin_request(profile@, endpoint),
{
    let params = vec![
        param("tmp", "tmp"),
        param("clientVer", "4100"),
        param("clientos", profile.client_os.as_str()),
        param("os-version", profile.os_version.as_str()),
        param("host-id", profile.host_id.as_str()),
        param("ipv6-support", "yes"),
        param("default-browser", endpoint.default_browser()),
        param("cas-support", "yes"),
        param("data", "eyJjYXNfZW1iZWRkZWRfYnJvd3NlciI6InllcyJ9"),
    ];
    assert(pairs(params@) =~= prelogin_fields(profile@, endpoint));
    let mut query: Params = Vec::new();
    if profile.client_os.kerberos_support_in_query() {
        query.push(param("kerberos-support", "yes"));
    }
    let ghost k = pairs(query@);
    if profile.client_os.prelogin_params_in_query() {
        let mut params = params;
        query.append(&mut params);
        assert(pairs(query@) =~= k + prelogin_fields(profile@, endpoint));
        let empty: Params = Vec::new();
        assert(pairs(empty@) =~= Seq::empty());
        (query, empty)
    } else {
        (query, params)
    }
}

/// The text of the root element's first descendant with this tag.
pub open spec fn root_text(n: Seq<XmlNodeView>, tag: Seq<char>) -> Option<Seq<char>> {
    match root_of(n) {
        Some(r) => text_of(n, r, tag),
        None => None,
    }
}

pub open spec fn saml_refusal() -> Seq<char> {
    "this portal uses SAML/single sign-on, which this client cannot do yet"@
}

/// What a prelogin reply says, given its parsed document.
pub open spec fn prelogin_of(n: Seq<XmlNodeView>) -> Result<PreloginView, ErrorView> {
    if root_text(n, "saml-request"@) is Some || root_text(n, "saml-auth-method"@) is Some {
        Err(ErrorView::Unsupported(saml_refusal()))
    } else {
        match root_text(n, "status"@) {
            Some(status) if lower(status) != "success"@ => Err(
                ErrorView::Auth(
                    match root_text(n, "msg"@) {
                        Some(m) => m,
                        None => match root_text(n, "authentication-message"@) {
                            Some(m) => m,
                            None => status,
                        },
                    },
                ),
            ),
            _ => Ok(
                PreloginView {
                    message: root_text(n, "authentication-message"@),
                    username_label: root_text(n, "username-label"@),
                    password_label: root_text(n, "password-label"@),
                    region: root_text(n, "region"@),
                },
            ),
        }
    }
}

/// What a prelogin reply body says.
pub open spec fn prelogin_reply(body: Seq<char>) -> Result<PreloginView, ErrorView> {
    match body_error(body) {
        Some(e) => Err(e),
        None => match parsed(body) {
            Err(e) => Err(e),
            Ok(n) => prelogin_of(n),
        },
    }
}

/// `Result<Prelogin, Error>` as plain values.
pub open spec fn prelogin_result(r: Result<Prelogin, Error>) -> Result<PreloginView, ErrorView> {
    match r {
        Ok(p) => Ok(p@),
        Err(e) => Err(e@),
    }
}

/// The text of the root element's first descendant with this tag.
pub fn root_text_in(doc: &Document, tag: &str) -> (r: Option<String>)
    ensures
        opt_view(r) == root_text(doc@, tag@),
{
    match doc.root_element() {
        Some(root) => doc.text(root, tag),
        None => None,
    }
}

/// What a parsed prelogin reply says.
pub fn prelogin_from(doc: &Document) -> (r: Result<Prelogin, Error>)
    ensures
        prelogin_result(r) == prelogin_of(doc@),
{
    if root_text_in(doc, "saml-request").is_some() || root_text_in(doc, "saml-auth-method").is_some() {
        return Err(
            Error::Unsupported(
                String::from_str("this portal uses SAML/single sign-on, which this client cannot do yet"),
            ),
        );
    }
    match root_text_in(doc, "status") {
        Some(status) => {
            if !same(&lower_chars(&chars_of(status.as_str())), &chars_of("success")) {
                let message = match root_text_in(doc, "msg") {
                    Some(m) => m,
                    None => match root_text_in(doc, "authentication-message") {
                        Some(m) => m,
                        None => status,
                    },
                };
                return Err(Error::Auth(message));
            }
        },
        None => {},
    }
    Ok(
        Prelogin {
            message: root_text_in(doc, "authentication-message"),
            username_label: root_text_in(doc, "username-label"),
            password_label: root_text_in(doc, "password-label"),
            region: root_text_in(doc, "region"),
        },
    )
}

/// Reads a prelogin reply.
pub fn parse(body: &str) -> (r: Result<Prelogin, Error>)
    ensures
        prelogin_result(r) == prelogin_reply(body@),
{
    match check_for_error(body) {
        Err(e) => {
            return Err(e);
        },
        Ok(()) => {},
    }
    match parse_xml(body) {
        Err(e) => Err(e),
        Ok(doc) => prelogin_from(&doc),
    }
}

/// A portal that asks for SAML is refused whatever else it says.
pub proof fn law_saml_is_refused(n: Seq<XmlNodeView>)
    requires
        root_text(n, "saml-request"@) is Some || root_text(n, "saml-auth-method"@) is Some,
    ensures
        prelogin_of(n) == Err::<PreloginView, ErrorView>(ErrorView::Unsupported(saml_refusal())),
{
}

/// Where the prelogin parameters go: Windows sends `kerberos-support=yes`
/// and the nine parameters in the query string and an empty body; macOS sends
/// `kerberos-support=yes` in the query and the nine parameters as the body;
/// Linux sends no query and the nine parameters as the body. Of the nine, the
/// `default-browser` is `-10` at a portal and `0` at a gateway.
pub proof fn law_prelogin_split(p: ProfileView, e: Endpoint)
    ensures
        prelogin_fields(p, e).len() == 9,
        prelogin_fields(p, e)[6] == ("default-browser"@, if e == Endpoint::Portal {
            "-10"@
        } else {
            "0"@
        }),
        p.client_os == ClientOs::Windows ==> prelogin_request(p, e).0 == seq![
            ("kerberos-support"@, "yes"@),
        ] + prelogin_fields(p, e) && prelogin_request(p, e).1.len() == 0,
        p.client_os == ClientOs::Mac ==> prelogin_request(p, e).0 == seq![
            ("kerberos-support"@, "yes"@),
        ] && prelogin_request(p, e).1 == prelogin_fields(p, e),
        p.client_os == ClientOs::Linux ==> prelogin_request(p, e).0.len() == 0
            && prelogin_request(p, e).1 == prelogin_fields(p, e),
{
}

} // verus!
