//! `ssl-vpn/login.esp` - gateway login, which yields the tunnel cookie.
use vstd::prelude::*;

use crate::credential::{credential_params, or_else, Credential, CredentialView};
use crate::error::{Error, ErrorView};
use crate::http::{host_of, host_text, key_count, key_index, lookup, pairs, param, set_param, Params};
use crate::profile::{opt_view, os_name, Profile, ProfileView};
use crate::text::{
    chars_of, contains, occurs_at, contains_chars, find_chars, find_from, lemma_find_from, push_chars,
    push_str, same, slice_of, string_of, trim, trim_chars, trimmed,
};
use crate::xml::{
    body_error, check_for_error, parse as parse_xml, parsed, tagged, Document, XmlNodeView,
};

verus! {

/// A multi-factor prompt the gateway raised instead of logging us in.
#[derive(Debug)]
pub struct Challenge {
    pub message: String,
    /// Opaque token echoed back as `inputStr` with the one-time code.
    pub input_str: String,
}

/// A `Challenge` as plain values.
pub struct ChallengeView {
    pub message: Seq<char>,
    pub input_str: Seq<char>,
}

impl View for Challenge {
    type V = ChallengeView;

    open spec fn view(&self) -> ChallengeView {
        ChallengeView { message: self.message@, input_str: self.input_str@ }
    }
}

impl Clone for Challenge {
    fn clone(&self) -> (r: Self)
        ensures
            r@ == self@,
    {
        Challenge { message: self.message.clone(), input_str: self.input_str.clone() }
    }
}

#[derive(Debug)]
pub enum Login {
    Cookie(String),
    Challenge(Challenge),
}

/// A `Login` as plain values.
pub enum LoginView {
    Cookie(Seq<char>),
    Challenge(ChallengeView),
}

impl View for Login {
    type V = LoginView;

    open spec fn view(&self) -> LoginView {
        match self {
            Login::Cookie(c) => LoginView::Cookie(c@),
            Login::Challenge(c) => LoginView::Challenge(c@),
        }
    }
}

/// One gateway login attempt.
pub struct LoginRequest {
    pub credential: Credential,
    pub profile: Profile,
    /// Gateway host, without a scheme.
    pub gateway_host: String,
    /// Label from the portal's gateway list, when we came via a portal.
    pub gateway_name: Option<String>,
    pub input_str: String,
    /// One-time code, which replaces `passwd` rather than being appended to it.
    pub otp: Option<String>,
    pub selected_manually: bool,
}

/// A `LoginRequest` as plain values.
pub struct LoginRequestView {
    pub credential: CredentialView,
    pub profile: ProfileView,
    pub gateway_host: Seq<char>,
    pub gateway_name: Option<Seq<char>>,
    pub input_str: Seq<char>,
    pub otp: Option<Seq<char>>,
    pub selected_manually: bool,
}

impl View for LoginRequest {
    type V = LoginRequestView;

    open spec fn view(&self) -> LoginRequestView {
        LoginRequestView {
            credential: self.credential@,
            profile: self.profile@,
            gateway_host: self.gateway_host@,
            gateway_name: opt_view(self.gateway_name),
            input_str: self.input_str@,
            otp: opt_view(self.otp),
            selected_manually: self.selected_manually,
        }
    }
}

/// The fields a real client sends after the credential's: what it is, where
/// it logs in and how the gateway was picked. `server` is the address the
/// gateway resolves to.
pub open spec fn gateway_fields(r: LoginRequestView, server: Option<Seq<char>>) -> Seq<
    (Seq<char>, Seq<char>),
> {
    let p = r.profile;
    let host = r.gateway_host;
    seq![
        ("prot"@, "https:"@),
        ("jnlpReady"@, "jnlpReady"@),
        ("ok"@, "Login"@),
        ("direct"@, "yes"@),
        ("ipv6-support"@, "yes"@),
        ("clientVer"@, "4100"@),
        ("clientos"@, os_name(p.client_os)),
        ("computer"@, p.computer),
        ("inputStr"@, r.input_str),
        ("os-version"@, p.os_version),
        ("server"@, or_else(server, host)),
        ("host-id"@, p.host_id),
        ("serialno"@, p.serialno),
        ("preferred-ip"@, ""@),
        ("preferred-ipv6"@, ""@),
        ("clientgpversion"@, p.client_version),
        ("host"@, host),
        ("gw"@, host),
        ("gateway-name"@, or_else(r.gateway_name, host)),
        ("internal"@, "no"@),
        ("selection-type"@, if r.selected_manually { "manual"@ } else { "auto"@ }),
        ("client-ipv6"@, ""@),
    ]
}

/// `client-ip`, when the local address that reaches the gateway is known.
pub open spec fn client_ip_field(client_ip: Option<Seq<char>>) -> Seq<(Seq<char>, Seq<char>)> {
    match client_ip {
        Some(ip) => seq![("client-ip"@, ip)],
        None => Seq::empty(),
    }
}

/// The login body before a one-time code is applied. `server` is the address
/// the gateway resolves to, `client_ip` the local address that would reach it.
pub open spec fn login_fields(
    r: LoginRequestView,
    server: Option<Seq<char>>,
    client_ip: Option<Seq<char>>,
) -> Seq<(Seq<char>, Seq<char>)> {
    credential_params(r.credential, r.profile.client_os) + gateway_fields(r, server)
        + client_ip_field(client_ip)
}

/// `set_param` as plain values.
pub open spec fn with_param(
    f: Seq<(Seq<char>, Seq<char>)>,
    key: Seq<char>,
    value: Seq<char>,
) -> Seq<(Seq<char>, Seq<char>)> {
    match key_index(f, key) {
        Some(i) => f.update(i, (key, value)),
        None => f.push((key, value)),
    }
}

/// The full login body: a one-time code replaces `passwd`.
pub open spec fn login_body(
    r: LoginRequestView,
    server: Option<Seq<char>>,
    client_ip: Option<Seq<char>>,
) -> Seq<(Seq<char>, Seq<char>)> {
    match r.otp {
        Some(otp) => with_param(login_fields(r, server, client_ip), "passwd"@, otp),
        None => login_fields(r, server, client_ip),
    }
}

/// The string in `value`, or `default`.
fn text_or(value: &Option<String>, default: &str) -> (r: String)
    ensures
        r@ == or_else(opt_view(*value), default@),
{
    match value {
        Some(v) => v.clone(),
        None => String::from_str(default),
    }
}

/// The gateway login body. `server` is what the gateway host resolves to (the
/// gateway wants that address, not the name we dialled) and `client_ip` the
/// local address that would be used to reach it.
pub fn build_params(request: &LoginRequest, server: Option<String>, client_ip: Option<String>) -> (r:
    Params)
    ensures
        pairs(r@) == login_body(request@, opt_view(server), opt_view(client_ip)),
        forall|a: int, b: int|
            0 <= a < b < r@.len() ==> #[trigger] r@[a].0@ != #[trigger] r@[b].0@,
        pairs(r@).take(6) == match request@.otp {
            Some(o) => credential_params(request@.credential, request@.profile.client_os).update(
                1,
                ("passwd"@, o),
            ),
            None => credential_params(request@.credential, request@.profile.client_os),
        },
        lookup(pairs(r@), "gateway-name"@) == Some(
            or_else(request@.gateway_name, request@.gateway_host),
        ),
        lookup(pairs(r@), "selection-type"@) == Some(
            if request@.selected_manually {
                "manual"@
            } else {
                "auto"@
            },
        ),
        lookup(pairs(r@), "host"@) == Some(request@.gateway_host),
        lookup(pairs(r@), "gw"@) == Some(request@.gateway_host),
        lookup(pairs(r@), "inputStr"@) == Some(request@.input_str),
{
    let profile = &request.profile;
    let host = request.gateway_host.as_str();
    let mut body = request.credential.params(profile);
    let ghost c = pairs(body@);
    let server_value = text_or(&server, host);
    let name = text_or(&request.gateway_name, host);
    let mut more = vec![
        param("prot", "https:"),
        param("jnlpReady", "jnlpReady"),
        param("ok", "Login"),
        param("direct", "yes"),
        param("ipv6-support", "yes"),
        param("clientVer", "4100"),
        param("clientos", profile.client_os.as_str()),
        param("computer", profile.computer.as_str()),
        param("inputStr", request.input_str.as_str()),
        param("os-version", profile.os_version.as_str()),
        param("server", server_value.as_str()),
        param("host-id", profile.host_id.as_str()),
        param("serialno", profile.serialno.as_str()),
        param("preferred-ip", ""),
        param("preferred-ipv6", ""),
        param("clientgpversion", profile.client_version.as_str()),
        param("host", host),
        param("gw", host),
        param("gateway-name", name.as_str()),
        param("internal", "no"),
        param("selection-type", if request.selected_manually { "manual" } else { "auto" }),
        param("client-ipv6", ""),
    ];
    let ghost m = pairs(more@);
    body.append(&mut more);
    assert(pairs(body@) =~= c + m);
    let ghost before_ip = pairs(body@);
    match &client_ip {
        Some(ip) => {
            body.push(param("client-ip", ip.as_str()));
            assert(pairs(body@) =~= before_ip + seq![("client-ip"@, ip@)]);
        },
        None => {
            assert(pairs(body@) =~= before_ip + Seq::empty());
        },
    }
    assert(pairs(body@) =~= login_fields(request@, opt_view(server), opt_view(client_ip)));
    match &request.otp {
        Some(otp) => set_param(&mut body, "passwd", otp.as_str()),
        None => {},
    }
    proof {
        law_login_body(request@, opt_view(server), opt_view(client_ip));
        let p = pairs(body@);
        assert forall|a: int, b: int| 0 <= a < b < body@.len() implies #[trigger] body@[a].0@
            != #[trigger] body@[b].0@ by {
            assert(p[a].0 == body@[a].0@ && p[b].0 == body@[b].0@);
        }
    }
    body
}

/// The first occurrence of `start`, and the text after it up to the next
/// `end`, trimmed.
pub open spec fn between_of(h: Seq<char>, start: Seq<char>, end: Seq<char>) -> Option<Seq<char>> {
    match find_from(h, start, 0) {
        None => None,
        Some(i) => {
            let rest = h.skip(i + start.len());
            match find_from(rest, end, 0) {
                None => None,
                Some(k) => Some(trim(rest.take(k))),
            }
        },
    }
}

/// The text between the first `start` and the `end` after it, trimmed.
pub fn between(haystack: &str, start: &str, end: &str) -> (r: Option<String>)
    ensures
        opt_view(r) == between_of(haystack@, start@, end@),
{
    let h = chars_of(haystack);
    let s = chars_of(start);
    proof {
        lemma_find_from(h@, s@, 0);
    }
    let i = match find_chars(&h, &s, 0) {
        Some(i) => i,
        None => {
            return None;
        },
    };
    assert(occurs_at(h@, s@, i as int));
    let hl: usize = h.len();
    let after: usize = i + s.len();
    let rest = slice_of(&h, after, hl);
    assert(rest@ == h@.skip(i + s@.len()));
    let e = chars_of(end);
    proof {
        lemma_find_from(rest@, e@, 0);
    }
    let k = match find_chars(&rest, &e, 0) {
        Some(k) => k,
        None => {
            return None;
        },
    };
    let value = trim_chars(&slice_of(&rest, 0, k));
    assert(rest@.subrange(0, k as int) == rest@.take(k as int));
    Some(string_of(&value))
}

/// The first of two alternatives that is there.
pub open spec fn either(a: Option<Seq<char>>, b: Option<Seq<char>>) -> Option<Seq<char>> {
    match a {
        Some(x) => Some(x),
        None => b,
    }
}

/// A challenge arrives as a JavaScript snippet wrapped in HTML, not as XML.
pub open spec fn challenge_of(body: Seq<char>) -> Option<ChallengeView> {
    if !contains(body, "Challenge"@) {
        None
    } else {
        Some(
            ChallengeView {
                message: or_else(
                    either(
                        between_of(body, "respMsg = \""@, "\""@),
                        between_of(body, "respmsg = \""@, "\""@),
                    ),
                    "Additional authentication is required"@,
                ),
                input_str: or_else(
                    either(
                        between_of(body, "inputStr.value = \""@, "\""@),
                        between_of(body, "inputstr.value = \""@, "\""@),
                    ),
                    ""@,
                ),
            },
        )
    }
}

/// The first of two alternatives that is there.
fn first_of(a: Option<String>, b: Option<String>) -> (r: Option<String>)
    ensures
        opt_view(r) == either(opt_view(a), opt_view(b)),
{
    match a {
        Some(x) => Some(x),
        None => b,
    }
}

/// A challenge arrives as a JavaScript snippet wrapped in HTML, not as XML.
/// It never fails; the `Result` is the shape every reader of a reply has.
pub fn parse_challenge(body: &str) -> (r: Result<Option<Challenge>, Error>)
    ensures
        r matches Ok(c) && match c {
            Some(c) => challenge_of(body@) == Some(c@),
            None => challenge_of(body@) is None,
        },
{
    if !contains_chars(&chars_of(body), &chars_of("Challenge")) {
        return Ok(None);
    }
    let message = match first_of(
        between(body, "respMsg = \"", "\""),
        between(body, "respmsg = \"", "\""),
    ) {
        Some(m) => m,
        None => String::from_str("Additional authentication is required"),
    };
    assert(message@ == or_else(
        either(
            between_of(body@, "respMsg = \""@, "\""@),
            between_of(body@, "respmsg = \""@, "\""@),
        ),
        "Additional authentication is required"@,
    ));
    let input_str = match first_of(
        between(body, "inputStr.value = \"", "\""),
        between(body, "inputstr.value = \"", "\""),
    ) {
        Some(v) => v,
        None => String::new(),
    };
    proof {
        reveal_strlit("");
    }
    assert(input_str@ == or_else(
        either(
            between_of(body@, "inputStr.value = \""@, "\""@),
            between_of(body@, "inputstr.value = \""@, "\""@),
        ),
        ""@,
    ));
    proof {
        reveal_strlit("");
    }
    let c = Challenge { message, input_str };
    assert(challenge_of(body@) == Some(c@));
    Ok(Some(c))
}

/// Whether a byte is left as it is by URL encoding: alphanumerics and
/// `-`, `.`, `_`, `~`.
pub open spec fn unreserved(b: u8) -> bool {
    (48 <= b <= 57) || (65 <= b <= 90) || (97 <= b <= 122) || b == 45 || b == 46 || b == 95 || b == 126
}

/// An upper-case hex digit.
pub open spec fn upper_hex(d: u8) -> char {
    if d < 10 {
        (48 + d) as char
    } else {
        (55 + d) as char
    }
}

/// Percent-encoding of a byte string: unreserved bytes as themselves, any
/// other as `%` and two upper-case hex digits.
pub open spec fn encode_bytes(b: Seq<u8>) -> Seq<char>
    decreases b.len(),
{
    if b.len() == 0 {
        Seq::empty()
    } else {
        (if unreserved(b[0]) {
            seq![b[0] as char]
        } else {
            seq!['%', upper_hex(b[0] / 16), upper_hex(b[0] % 16)]
        }) + encode_bytes(b.drop_first())
    }
}

/// Percent-encoding of the UTF-8 bytes of a string.
pub open spec fn url_encoded(s: Seq<char>) -> Seq<char> {
    encode_bytes(vstd::utf8::encode_utf8(s))
}

/// Calls `urlencoding::encode`, which per its documentation and source
/// percent-encodes every UTF-8 byte except alphanumerics and `-`, `_`, `.`,
/// `~`, using upper-case hex digits.
#[verifier::external_body]
fn url_encode(s: &str) -> (r: String)
    ensures
        r@ == url_encoded(s@),
{
    urlencoding::encode(s).into_owned()
}

/// The text an `<argument>` node carries, trimmed; empty when it has none.
pub open spec fn argument_text(x: XmlNodeView) -> Seq<char> {
    match x.text {
        Some(t) => trim(t),
        None => Seq::empty(),
    }
}

/// The `<argument>` values of the document from node `j` on, in order.
pub open spec fn arguments_from(n: Seq<XmlNodeView>, j: int) -> Seq<Seq<char>>
    decreases n.len() - j,
{
    if j >= n.len() || j < 0 {
        Seq::empty()
    } else {
        (if tagged("argument"@)(n[j]) {
            seq![argument_text(n[j])]
        } else {
            Seq::empty()
        }) + arguments_from(n, j + 1)
    }
}

/// Positional argument `i`, unless it is missing, empty or `(null)`.
pub open spec fn slot(args: Seq<Seq<char>>, i: int) -> Option<Seq<char>> {
    if 0 <= i < args.len() && args[i].len() > 0 && args[i] != "(null)"@ {
        Some(args[i])
    } else {
        None
    }
}

/// A field, when there is a value for it.
pub open spec fn optional_field(key: Seq<char>, value: Option<Seq<char>>) -> Seq<(Seq<char>, Seq<char>)> {
    match value {
        Some(v) => seq![(key, v)],
        None => Seq::empty(),
    }
}

/// The tunnel cookie's fields: the interesting `<argument>` slots of the JNLP
/// reply. The indices are fixed by the protocol.
pub open spec fn cookie_fields(args: Seq<Seq<char>>, computer: Seq<char>) -> Result<
    Seq<(Seq<char>, Seq<char>)>,
    ErrorView,
> {
    match slot(args, 1) {
        None => Err(ErrorView::Parse("the gateway did not return an auth cookie"@)),
        Some(auth) => match slot(args, 4) {
            None => Err(ErrorView::Parse("the gateway did not return a user name"@)),
            Some(user) => Ok(
                seq![("authcookie"@, auth)] + optional_field("persistent-cookie"@, slot(args, 2))
                    + optional_field("portal"@, slot(args, 3)) + seq![("user"@, user)]
                    + optional_field("domain"@, slot(args, 7)) + optional_field(
                    "preferred-ip"@,
                    slot(args, 15),
                ) + optional_field("preferred-ipv6"@, slot(args, 18)) + seq![
                    ("computer"@, computer),
                ],
            ),
        },
    }
}

/// `key=value` pairs, values URL-encoded, joined by `&`.
pub open spec fn query_of(f: Seq<(Seq<char>, Seq<char>)>) -> Seq<char>
    decreases f.len(),
{
    if f.len() == 0 {
        Seq::empty()
    } else if f.len() == 1 {
        f[0].0 + "="@ + url_encoded(f[0].1)
    } else {
        query_of(f.drop_last()) + "&"@ + f.last().0 + "="@ + url_encoded(f.last().1)
    }
}

/// The tunnel cookie openconnect expects, given the reply's parsed document.
pub open spec fn cookie_of(n: Seq<XmlNodeView>, computer: Seq<char>) -> Result<Seq<char>, ErrorView> {
    match cookie_fields(arguments_from(n, 0), computer) {
        Err(e) => Err(e),
        Ok(f) => Ok(query_of(f)),
    }
}

/// The `<argument>` values of the document, in order.
fn arguments(doc: &Document) -> (r: Vec<Vec<char>>)
    ensures
        r@.map_values(|a: Vec<char>| a@) == arguments_from(doc@, 0),
{
    let ghost n = doc@;
    let tag = chars_of("argument");
    let mut out: Vec<Vec<char>> = Vec::new();
    let mut j: usize = 0;
    while j < doc.nodes.len()
        invariant
            n == doc@,
            j <= n.len(),
            tag@ == "argument"@,
            arguments_from(n, 0) == out@.map_values(|a: Vec<char>| a@) + arguments_from(n, j as int),
        decreases n.len() - j,
    {
        let ghost before = out@.map_values(|a: Vec<char>| a@);
        if doc.has_tag_name(j, &tag) {
            let text = match &doc.nodes[j].text {
                Some(t) => trimmed(t.as_str()),
                None => Vec::new(),
            };
            proof {
                assert(n[j as int] == doc.nodes@[j as int]@);
            }
            out.push(text);
            assert(out@.map_values(|a: Vec<char>| a@) =~= before.push(argument_text(n[j as int])));
        }
        j = j + 1;
    }
    assert(arguments_from(n, j as int) == Seq::<Seq<char>>::empty());
    assert(out@.map_values(|a: Vec<char>| a@) + Seq::<Seq<char>>::empty() =~= out@.map_values(
        |a: Vec<char>| a@,
    ));
    out
}

/// Positional argument `i`, unless it is missing, empty or `(null)`.
fn slot_of(args: &Vec<Vec<char>>, i: usize) -> (r: Option<Vec<char>>)
    ensures
        match r {
            Some(v) => slot(args@.map_values(|a: Vec<char>| a@), i as int) == Some(v@),
            None => slot(args@.map_values(|a: Vec<char>| a@), i as int) is None,
        },
{
    let ghost a = args@.map_values(|a: Vec<char>| a@);
    if i < args.len() {
        let v = &args[i];
        assert(a[i as int] == v@);
        if v.len() > 0 && !same(v, &chars_of("(null)")) {
            return Some(slice_of(v, 0, v.len()));
        }
    }
    None
}

/// Appends `key=encoded value`, after an `&` unless it is the first field.
fn push_field(
    out: &mut Vec<char>,
    fields: &mut Vec<(Vec<char>, Vec<char>)>,
    key: &str,
    value: &[char],
)
    ensures
        final(fields)@.map_values(|f: (Vec<char>, Vec<char>)| (f.0@, f.1@)) == old(fields)@.map_values(
            |f: (Vec<char>, Vec<char>)| (f.0@, f.1@),
        ).push((key@, value@)),
        old(out)@ == query_of(old(fields)@.map_values(|f: (Vec<char>, Vec<char>)| (f.0@, f.1@)))
            ==> final(out)@ == query_of(
            final(fields)@.map_values(|f: (Vec<char>, Vec<char>)| (f.0@, f.1@)),
        ),
{
    let ghost before = old(fields)@.map_values(|f: (Vec<char>, Vec<char>)| (f.0@, f.1@));
    if fields.len() > 0 {
        push_str(out, "&");
    }
    push_str(out, key);
    push_str(out, "=");
    let encoded = url_encode(string_of(value).as_str());
    push_str(out, encoded.as_str());
    let k = chars_of(key);
    let v = slice_of(value, 0, value.len());
    assert(v@ =~= value@);
    fields.push((k, v));
    proof {
        let after = fields@.map_values(|f: (Vec<char>, Vec<char>)| (f.0@, f.1@));
        assert(after.len() == before.len() + 1);
        assert(after[before.len() as int] == (key@, value@));
        assert forall|j: int| 0 <= j < before.len() implies after[j] == before[j] by {
            assert(fields@[j] == old(fields)@[j]);
        }
        assert(after =~= before.push((key@, value@)));
        assert(after.drop_last() == before);
        if before.len() == 0 {
            assert(query_of(before) == Seq::<char>::empty());
        }
    }
}

/// Appends an optional field.
fn push_optional(
    out: &mut Vec<char>,
    fields: &mut Vec<(Vec<char>, Vec<char>)>,
    key: &str,
    value: &Option<Vec<char>>,
)
    ensures
        final(fields)@.map_values(|f: (Vec<char>, Vec<char>)| (f.0@, f.1@)) == old(fields)@.map_values(
            |f: (Vec<char>, Vec<char>)| (f.0@, f.1@),
        ) + optional_field(
            key@,
            match value {
                Some(v) => Some(v@),
                None => None,
            },
        ),
        old(out)@ == query_of(old(fields)@.map_values(|f: (Vec<char>, Vec<char>)| (f.0@, f.1@)))
            ==> final(out)@ == query_of(
            final(fields)@.map_values(|f: (Vec<char>, Vec<char>)| (f.0@, f.1@)),
        ),
{
    match value {
        Some(v) => {
            push_field(out, fields, key, v);
            assert(seq![(key@, v@)] =~= optional_field(key@, Some(v@)));
        },
        None => {
            assert(old(fields)@.map_values(|f: (Vec<char>, Vec<char>)| (f.0@, f.1@)) + Seq::empty()
                =~= old(fields)@.map_values(|f: (Vec<char>, Vec<char>)| (f.0@, f.1@)));
        },
    }
}

/// The tunnel cookie openconnect expects, read from a parsed login reply.
pub fn cookie_from(doc: &Document, computer: &str) -> (r: Result<String, Error>)
    ensures
        match r {
            Ok(c) => cookie_of(doc@, computer@) == Ok::<Seq<char>, ErrorView>(c@),
            Err(e) => cookie_of(doc@, computer@) == Err::<Seq<char>, ErrorView>(e@),
        },
{
    let args = arguments(doc);
    let ghost a = args@.map_values(|x: Vec<char>| x@);
    let auth = match slot_of(&args, 1) {
        Some(v) => v,
        None => {
            return Err(Error::Parse(String::from_str("the gateway did not return an auth cookie")));
        },
    };
    let user = match slot_of(&args, 4) {
        Some(v) => v,
        None => {
            return Err(Error::Parse(String::from_str("the gateway did not return a user name")));
        },
    };
    let persistent = slot_of(&args, 2);
    let portal = slot_of(&args, 3);
    let domain = slot_of(&args, 7);
    let preferred_ip = slot_of(&args, 15);
    let preferred_ipv6 = slot_of(&args, 18);
    let host = chars_of(computer);
    let mut out: Vec<char> = Vec::new();
    let mut fields: Vec<(Vec<char>, Vec<char>)> = Vec::new();
    assert(fields@.map_values(|f: (Vec<char>, Vec<char>)| (f.0@, f.1@)) =~= Seq::empty());
    push_field(&mut out, &mut fields, "authcookie", &auth);
    push_optional(&mut out, &mut fields, "persistent-cookie", &persistent);
    push_optional(&mut out, &mut fields, "portal", &portal);
    push_field(&mut out, &mut fields, "user", &user);
    push_optional(&mut out, &mut fields, "domain", &domain);
    push_optional(&mut out, &mut fields, "preferred-ip", &preferred_ip);
    push_optional(&mut out, &mut fields, "preferred-ipv6", &preferred_ipv6);
    push_field(&mut out, &mut fields, "computer", &host);
    proof {
        let f = fields@.map_values(|f: (Vec<char>, Vec<char>)| (f.0@, f.1@));
        assert(f =~= seq![("authcookie"@, auth@)] + optional_field(
            "persistent-cookie"@,
            slot(a, 2),
        ) + optional_field("portal"@, slot(a, 3)) + seq![("user"@, user@)] + optional_field(
            "domain"@,
            slot(a, 7),
        ) + optional_field("preferred-ip"@, slot(a, 15)) + optional_field(
            "preferred-ipv6"@,
            slot(a, 18),
        ) + seq![("computer"@, computer@)]);
    }
    Ok(string_of(&out))
}

/// What a gateway login reply says, given its body.
pub open spec fn login_reply(body: Seq<char>, computer: Seq<char>) -> Result<LoginView, ErrorView> {
    if trim(body).len() == 0 {
        Err(ErrorView::Parse("the gateway sent an empty login response"@))
    } else {
        match challenge_of(body) {
            Some(c) => Ok(LoginView::Challenge(c)),
            None => match body_error(body) {
                Some(e) => Err(e),
                None => match parsed(body) {
                    Err(e) => Err(e),
                    Ok(n) => match cookie_of(n, computer) {
                        Ok(c) => Ok(LoginView::Cookie(c)),
                        Err(e) => Err(e),
                    },
                },
            },
        }
    }
}

/// `Result<Login, Error>` as plain values.
pub open spec fn login_result(r: Result<Login, Error>) -> Result<LoginView, ErrorView> {
    match r {
        Ok(l) => Ok(l@),
        Err(e) => Err(e@),
    }
}

/// Reads a gateway login reply: a challenge, an error, or the tunnel cookie.
pub fn parse(body: &str, computer: &str) -> (r: Result<Login, Error>)
    ensures
        login_result(r) == login_reply(body@, computer@),
{
    if trimmed(body).len() == 0 {
        return Err(Error::Parse(String::from_str("the gateway sent an empty login response")));
    }
    match parse_challenge(body) {
        Ok(Some(challenge)) => {
            return Ok(Login::Challenge(challenge));
        },
        _ => {},
    }
    match check_for_error(body) {
        Err(e) => {
            return Err(e);
        },
        Ok(()) => {},
    }
    match parse_xml(body) {
        Err(e) => Err(e),
        Ok(doc) => match cookie_from(&doc, computer) {
            Ok(c) => Ok(Login::Cookie(c)),
            Err(e) => Err(e),
        },
    }
}

/// The host name to resolve for a gateway: its bare host, without a port.
pub open spec fn resolve_target_of(host: Seq<char>) -> Seq<char> {
    let h = host_text(host);
    match find_from(h, ":"@, 0) {
        Some(i) => h.take(i),
        None => h,
    }
}

/// The host name to resolve for a gateway: its bare host, without a port.
pub fn resolve_target(host: &str) -> (r: String)
    ensures
        r@ == resolve_target_of(host@),
{
    let h = chars_of(host_of(host).as_str());
    match find_chars(&h, &chars_of(":"), 0) {
        Some(i) => {
            proof {
                lemma_find_from(h@, ":"@, 0);
            }
            let t = slice_of(&h, 0, i);
            assert(h@.subrange(0, i as int) == h@.take(i as int));
            string_of(&t)
        },
        None => string_of(&h),
    }
}

/// A parameter list's count of `key` splits over a concatenation.
pub proof fn lemma_key_count_concat(
    a: Seq<(Seq<char>, Seq<char>)>,
    b: Seq<(Seq<char>, Seq<char>)>,
    key: Seq<char>,
)
    ensures
        key_count(a + b, key) == key_count(a, key) + key_count(b, key),
    decreases b.len(),
{
    if b.len() == 0 {
        assert(a + b =~= a);
    } else {
        assert((a + b).drop_last() =~= a + b.drop_last());
        lemma_key_count_concat(a, b.drop_last(), key);
    }
}

/// A one-time code replaces `passwd` rather than being added beside it: the
/// body carries exactly one `passwd`, and it is the code.
pub proof fn law_otp_replaces_password(
    r: LoginRequestView,
    server: Option<Seq<char>>,
    client_ip: Option<Seq<char>>,
)
    requires
        r.otp is Some,
    ensures
        key_count(login_body(r, server, client_ip), "passwd"@) == 1,
        lookup(login_body(r, server, client_ip), "passwd"@) == r.otp,
{
    let c = credential_params(r.credential, r.profile.client_os);
    let fixed = gateway_fields(r, server);
    let ip = client_ip_field(client_ip);
    let key = "passwd"@;
    reveal_strlit("passwd");
    reveal_strlit("user");
    reveal_strlit("prelogin-cookie");
    reveal_strlit("portal-userauthcookie");
    reveal_strlit("portal-prelogonuserauthcookie");
    reveal_strlit("token");
    reveal_strlit("prot");
    reveal_strlit("jnlpReady");
    reveal_strlit("ok");
    reveal_strlit("direct");
    reveal_strlit("ipv6-support");
    reveal_strlit("clientVer");
    reveal_strlit("clientos");
    reveal_strlit("computer");
    reveal_strlit("inputStr");
    reveal_strlit("os-version");
    reveal_strlit("server");
    reveal_strlit("host-id");
    reveal_strlit("serialno");
    reveal_strlit("preferred-ip");
    reveal_strlit("preferred-ipv6");
    reveal_strlit("clientgpversion");
    reveal_strlit("host");
    reveal_strlit("gw");
    reveal_strlit("gateway-name");
    reveal_strlit("internal");
    reveal_strlit("selection-type");
    reveal_strlit("client-ipv6");
    reveal_strlit("client-ip");
    assert(login_fields(r, server, client_ip) == c + fixed + ip);
    assert forall|k: int| 0 <= k < fixed.len() implies fixed[k].0 != key by {
        assert(fixed[k].0.len() != 6 || fixed[k].0[0] != 'p' || fixed[k].0[1] != 'a');
    }
    crate::http::lemma_key_count_absent(fixed, key);
    assert forall|k: int| 0 <= k < ip.len() implies ip[k].0 != key by {
        assert(ip[k].0.len() != 6);
    }
    crate::http::lemma_key_count_absent(ip, key);
    assert(c =~= seq![c[0]] + seq![c[1]] + c.skip(2));
    assert forall|k: int| 0 <= k < c.skip(2).len() implies c.skip(2)[k].0 != key by {
        assert(c.skip(2)[k].0.len() != 6 || c.skip(2)[k].0[0] != 'p' || c.skip(2)[k].0[1] != 'a');
    }
    crate::http::lemma_key_count_absent(c.skip(2), key);
    assert(c[0].0 == "user"@);
    assert forall|k: int| 0 <= k < seq![c[0]].len() implies seq![c[0]][k].0 != key by {
        assert(seq![c[0]][k].0.len() == 4);
    }
    crate::http::lemma_key_count_absent(seq![c[0]], key);
    crate::http::lemma_key_count_push(Seq::empty(), c[1], key);
    assert(seq![c[1]] =~= Seq::<(Seq<char>, Seq<char>)>::empty().push(c[1]));
    crate::http::lemma_key_count_absent(Seq::<(Seq<char>, Seq<char>)>::empty(), key);
    lemma_key_count_concat(seq![c[0]], seq![c[1]], key);
    lemma_key_count_concat(seq![c[0]] + seq![c[1]], c.skip(2), key);
    lemma_key_count_concat(c, fixed, key);
    lemma_key_count_concat(c + fixed, ip, key);
    crate::http::law_set_param_replaces(login_fields(r, server, client_ip), key, r.otp->0);
}

/// The names of a gateway login body's fields, in order; the last is sent
/// only when the local address is known.
spec fn login_keys() -> Seq<Seq<char>> {
    seq![
        "user"@,
        "passwd"@,
        "prelogin-cookie"@,
        "portal-userauthcookie"@,
        "portal-prelogonuserauthcookie"@,
        "token"@,
        "prot"@,
        "jnlpReady"@,
        "ok"@,
        "direct"@,
        "ipv6-support"@,
        "clientVer"@,
        "clientos"@,
        "computer"@,
        "inputStr"@,
        "os-version"@,
        "server"@,
        "host-id"@,
        "serialno"@,
        "preferred-ip"@,
        "preferred-ipv6"@,
        "clientgpversion"@,
        "host"@,
        "gw"@,
        "gateway-name"@,
        "internal"@,
        "selection-type"@,
        "client-ipv6"@,
        "client-ip"@,
    ]
}

/// No name occurs twice among the login fields.
proof fn lemma_login_keys_distinct()
    ensures
        forall|i: int, j: int|
            0 <= i < j < login_keys().len() ==> #[trigger] login_keys()[i] != #[trigger] login_keys()[j],
{
    reveal_strlit("user");
    reveal_strlit("passwd");
    reveal_strlit("prelogin-cookie");
    reveal_strlit("portal-userauthcookie");
    reveal_strlit("portal-prelogonuserauthcookie");
    reveal_strlit("token");
    reveal_strlit("prot");
    reveal_strlit("jnlpReady");
    reveal_strlit("ok");
    reveal_strlit("direct");
    reveal_strlit("ipv6-support");
    reveal_strlit("clientVer");
    reveal_strlit("clientos");
    reveal_strlit("computer");
    reveal_strlit("inputStr");
    reveal_strlit("os-version");
    reveal_strlit("server");
    reveal_strlit("host-id");
    reveal_strlit("serialno");
    reveal_strlit("preferred-ip");
    reveal_strlit("preferred-ipv6");
    reveal_strlit("clientgpversion");
    reveal_strlit("host");
    reveal_strlit("gw");
    reveal_strlit("gateway-name");
    reveal_strlit("internal");
    reveal_strlit("selection-type");
    reveal_strlit("client-ipv6");
    reveal_strlit("client-ip");
    assert("user"@.len() == 4 && "user"@[0] == 'u');
    assert("passwd"@.len() == 6 && "passwd"@[0] == 'p');
    assert("prelogin-cookie"@.len() == 15 && "prelogin-cookie"@[0] == 'p');
    assert("portal-userauthcookie"@.len() == 21 && "portal-userauthcookie"@[0] == 'p');
    assert("portal-prelogonuserauthcookie"@.len() == 29 && "portal-prelogonuserauthcookie"@[0] == 'p');
    assert("token"@.len() == 5 && "token"@[0] == 't');
    assert("prot"@.len() == 4 && "prot"@[0] == 'p');
    assert("jnlpReady"@.len() == 9 && "jnlpReady"@[0] == 'j');
    assert("ok"@.len() == 2 && "ok"@[0] == 'o');
    assert("direct"@.len() == 6 && "direct"@[0] == 'd');
    assert("ipv6-support"@.len() == 12 && "ipv6-support"@[0] == 'i');
    assert("clientVer"@.len() == 9 && "clientVer"@[0] == 'c');
    assert("clientos"@.len() == 8 && "clientos"@[0] == 'c');
    assert("computer"@.len() == 8 && "computer"@[0] == 'c');
    assert("inputStr"@.len() == 8 && "inputStr"@[0] == 'i');
    assert("os-version"@.len() == 10 && "os-version"@[0] == 'o');
    assert("server"@.len() == 6 && "server"@[0] == 's');
    assert("host-id"@.len() == 7 && "host-id"@[0] == 'h');
    assert("serialno"@.len() == 8 && "serialno"@[0] == 's');
    assert("preferred-ip"@.len() == 12 && "preferred-ip"@[0] == 'p');
    assert("preferred-ipv6"@.len() == 14 && "preferred-ipv6"@[0] == 'p');
    assert("clientgpversion"@.len() == 15 && "clientgpversion"@[0] == 'c');
    assert("host"@.len() == 4 && "host"@[0] == 'h');
    assert("gw"@.len() == 2 && "gw"@[0] == 'g');
    assert("gateway-name"@.len() == 12 && "gateway-name"@[0] == 'g');
    assert("internal"@.len() == 8 && "internal"@[0] == 'i');
    assert("selection-type"@.len() == 14 && "selection-type"@[0] == 's');
    assert("client-ipv6"@.len() == 11 && "client-ipv6"@[0] == 'c');
    assert("client-ip"@.len() == 9 && "client-ip"@[0] == 'c');
    // The names that share a length and a first letter differ further on.
    assert("clientos"@[1] != "computer"@[1]);
    assert("inputStr"@[2] != "internal"@[2]);
    assert("clientVer"@[6] != "client-ip"@[6]);
}

/// With no name twice, the lookup of an entry's name finds that entry.
pub proof fn lemma_lookup_unique(p: Seq<(Seq<char>, Seq<char>)>, i: int)
    requires
        0 <= i < p.len(),
        forall|a: int, b: int| 0 <= a < b < p.len() ==> #[trigger] p[a].0 != #[trigger] p[b].0,
    ensures
        key_index(p, p[i].0) == Some(i),
        lookup(p, p[i].0) == Some(p[i].1),
{
    crate::http::lemma_key_index(p, p[i].0);
}

/// The gateway login body names every field once: its names are the login
/// field names in order, the last only when the local address is known.
proof fn lemma_login_body_names(
    r: LoginRequestView,
    server: Option<Seq<char>>,
    client_ip: Option<Seq<char>>,
)
    ensures
        login_body(r, server, client_ip).len() == 28 + if client_ip is Some { 1int } else { 0 },
        forall|k: int|
            0 <= k < login_body(r, server, client_ip).len() ==> #[trigger] login_body(
                r,
                server,
                client_ip,
            )[k].0 == login_keys()[k],
        login_fields(r, server, client_ip).take(6) == credential_params(
            r.credential,
            r.profile.client_os,
        ),
        r.otp matches Some(o) ==> login_body(r, server, client_ip) == login_fields(
            r,
            server,
            client_ip,
        ).update(1, ("passwd"@, o)),
        r.otp is None ==> login_body(r, server, client_ip) == login_fields(r, server, client_ip),
{
    let c = credential_params(r.credential, r.profile.client_os);
    let g = gateway_fields(r, server);
    let ip = client_ip_field(client_ip);
    let f = login_fields(r, server, client_ip);
    assert(f =~= c + g + ip);
    assert forall|k: int| 0 <= k < f.len() implies #[trigger] f[k].0 == login_keys()[k] by {
        if k < 6 {
            assert(f[k] == c[k]);
        } else if k < 28 {
            assert(f[k] == g[k - 6]);
        } else {
            assert(f[k] == ip[k - 28]);
        }
    }
    assert(f.take(6) =~= c);
    lemma_login_keys_distinct();
    assert forall|a: int, b: int| 0 <= a < b < f.len() implies #[trigger] f[a].0 != #[trigger] f[b].0 by {
        assert(login_keys()[a] != login_keys()[b]);
    }
    match r.otp {
        Some(o) => {
            lemma_lookup_unique(f, 1);
            let body = login_body(r, server, client_ip);
            assert forall|k: int| 0 <= k < body.len() implies #[trigger] body[k].0
                == login_keys()[k] by {
                assert(f[k].0 == login_keys()[k]);
            }
        },
        None => {},
    }
}

/// What a gateway login sends, as its parameters are read: no name occurs
/// twice; the credential's six fields come first, with a one-time code in
/// place of the password; the gateway is named by the name it was picked by,
/// or its host; the selection is `manual` exactly when the user picked it;
/// `host` and `gw` are the host dialled; and `inputStr` is the challenge being
/// answered.
pub proof fn law_login_body(r: LoginRequestView, server: Option<Seq<char>>, client_ip: Option<Seq<char>>)
    ensures
        forall|a: int, b: int|
            0 <= a < b < login_body(r, server, client_ip).len() ==> #[trigger] login_body(
                r,
                server,
                client_ip,
            )[a].0 != #[trigger] login_body(r, server, client_ip)[b].0,
        login_body(r, server, client_ip).take(6) == match r.otp {
            Some(o) => credential_params(r.credential, r.profile.client_os).update(
                1,
                ("passwd"@, o),
            ),
            None => credential_params(r.credential, r.profile.client_os),
        },
        lookup(login_body(r, server, client_ip), "gateway-name"@) == Some(
            or_else(r.gateway_name, r.gateway_host),
        ),
        lookup(login_body(r, server, client_ip), "selection-type"@) == Some(
            if r.selected_manually {
                "manual"@
            } else {
                "auto"@
            },
        ),
        lookup(login_body(r, server, client_ip), "host"@) == Some(r.gateway_host),
        lookup(login_body(r, server, client_ip), "gw"@) == Some(r.gateway_host),
        lookup(login_body(r, server, client_ip), "inputStr"@) == Some(r.input_str),
{
    lemma_login_body_names(r, server, client_ip);
    lemma_login_keys_distinct();
    let body = login_body(r, server, client_ip);
    let f = login_fields(r, server, client_ip);
    let g = gateway_fields(r, server);
    assert forall|a: int, b: int| 0 <= a < b < body.len() implies #[trigger] body[a].0
        != #[trigger] body[b].0 by {
        assert(login_keys()[a] != login_keys()[b]);
    }
    assert(body.take(6) =~= f.take(6).update(1, body[1])) by {
        if r.otp is None {
            assert(body[1] == f[1]);
        }
    }
    assert(f[1] == credential_params(r.credential, r.profile.client_os)[1]);
    assert(f[14] == g[8] && f[22] == g[16] && f[23] == g[17]);
    assert(f[24] == g[18] && f[26] == g[20]);
    lemma_lookup_unique(body, 14);
    lemma_lookup_unique(body, 22);
    lemma_lookup_unique(body, 23);
    lemma_lookup_unique(body, 24);
    lemma_lookup_unique(body, 26);
}

/// A field that is there or not, as a list of zero or one names.
proof fn lemma_optional_field(key: Seq<char>, value: Option<Seq<char>>)
    ensures
        forall|k: Seq<char>|
            #[trigger] key_index(optional_field(key, value), k) == if value is Some && key == k {
                Some(0int)
            } else {
                None
            },
        forall|k: Seq<char>|
            #[trigger] lookup(optional_field(key, value), k) == if key == k { value } else { None },
        forall|k: Seq<char>|
            #[trigger] key_count(optional_field(key, value), k) == if value is Some && key == k {
                1nat
            } else {
                0nat
            },
        optional_field(key, value).len() == if value is Some { 1int } else { 0 },
{
    match value {
        Some(v) => crate::http::lemma_params_single((key, v)),
        None => crate::http::lemma_params_empty(),
    }
}

/// What the tunnel cookie carries, by the login reply's positional
/// arguments. An argument counts when it is there, not empty and not
/// `(null)`.
/// - Without the auth cookie (argument 1) or the user name (argument 4)
///   there is no cookie, and the error says which is missing.
/// - Otherwise the cookie has `authcookie` and `user` from those, and each
///   of `persistent-cookie` (2), `portal` (3), `domain` (7), `preferred-ip`
///   (15) and `preferred-ipv6` (18) exactly when its argument counts, then
///   `computer`; in that order, no name twice.
pub proof fn law_cookie_fields(args: Seq<Seq<char>>, computer: Seq<char>)
    ensures
        ({
            let g = |i: int| 0 <= i < args.len() && args[i].len() > 0 && args[i] != "(null)"@;
            let n = |i: int| if g(i) { 1int } else { 0int };
            let opt = |i: int| if g(i) { Some(args[i]) } else { None::<Seq<char>> };
            &&& !g(1) ==> cookie_fields(args, computer) == Err::<Seq<(Seq<char>, Seq<char>)>, ErrorView>(
                ErrorView::Parse("the gateway did not return an auth cookie"@),
            )
            &&& g(1) && !g(4) ==> cookie_fields(args, computer) == Err::<
                Seq<(Seq<char>, Seq<char>)>,
                ErrorView,
            >(ErrorView::Parse("the gateway did not return a user name"@))
            &&& g(1) && g(4) ==> (cookie_fields(args, computer) matches Ok(f) && {
                &&& forall|key: Seq<char>| #[trigger] key_count(f, key) <= 1
                &&& f.len() == 3 + n(2) + n(3) + n(7) + n(15) + n(18)
                &&& lookup(f, "authcookie"@) == Some(args[1])
                &&& lookup(f, "persistent-cookie"@) == opt(2)
                &&& lookup(f, "portal"@) == opt(3)
                &&& lookup(f, "user"@) == Some(args[4])
                &&& lookup(f, "domain"@) == opt(7)
                &&& lookup(f, "preferred-ip"@) == opt(15)
                &&& lookup(f, "preferred-ipv6"@) == opt(18)
                &&& lookup(f, "computer"@) == Some(computer)
                &&& key_index(f, "authcookie"@) == Some(0int)
                &&& g(2) ==> key_index(f, "persistent-cookie"@) == Some(1int)
                &&& g(3) ==> key_index(f, "portal"@) == Some(1 + n(2))
                &&& key_index(f, "user"@) == Some(1 + n(2) + n(3))
                &&& g(7) ==> key_index(f, "domain"@) == Some(2 + n(2) + n(3))
                &&& g(15) ==> key_index(f, "preferred-ip"@) == Some(2 + n(2) + n(3) + n(7))
                &&& g(18) ==> key_index(f, "preferred-ipv6"@) == Some(
                    2 + n(2) + n(3) + n(7) + n(15),
                )
                &&& key_index(f, "computer"@) == Some(f.len() - 1)
            })
        }),
{
    reveal_strlit("authcookie");
    reveal_strlit("persistent-cookie");
    reveal_strlit("portal");
    reveal_strlit("user");
    reveal_strlit("domain");
    reveal_strlit("preferred-ip");
    reveal_strlit("preferred-ipv6");
    reveal_strlit("computer");
    assert("authcookie"@.len() == 10 && "authcookie"@[0] == 'a');
    assert("persistent-cookie"@.len() == 17 && "persistent-cookie"@[0] == 'p');
    assert("portal"@.len() == 6 && "portal"@[0] == 'p');
    assert("user"@.len() == 4 && "user"@[0] == 'u');
    assert("domain"@.len() == 6 && "domain"@[0] == 'd');
    assert("preferred-ip"@.len() == 12 && "preferred-ip"@[0] == 'p');
    assert("preferred-ipv6"@.len() == 14 && "preferred-ipv6"@[0] == 'p');
    assert("computer"@.len() == 8 && "computer"@[0] == 'c');
    if slot(args, 1) is Some && slot(args, 4) is Some {
        let p0 = seq![("authcookie"@, args[1])];
        let p1 = optional_field("persistent-cookie"@, slot(args, 2));
        let p2 = optional_field("portal"@, slot(args, 3));
        let p3 = seq![("user"@, args[4])];
        let p4 = optional_field("domain"@, slot(args, 7));
        let p5 = optional_field("preferred-ip"@, slot(args, 15));
        let p6 = optional_field("preferred-ipv6"@, slot(args, 18));
        let p7 = seq![("computer"@, computer)];
        crate::http::lemma_params_single(("authcookie"@, args[1]));
        crate::http::lemma_params_single(("user"@, args[4]));
        crate::http::lemma_params_single(("computer"@, computer));
        lemma_optional_field("persistent-cookie"@, slot(args, 2));
        lemma_optional_field("portal"@, slot(args, 3));
        lemma_optional_field("domain"@, slot(args, 7));
        lemma_optional_field("preferred-ip"@, slot(args, 15));
        lemma_optional_field("preferred-ipv6"@, slot(args, 18));
        crate::http::lemma_params_concat(p0, p1);
        crate::http::lemma_params_concat(p0 + p1, p2);
        crate::http::lemma_params_concat(p0 + p1 + p2, p3);
        crate::http::lemma_params_concat(p0 + p1 + p2 + p3, p4);
        crate::http::lemma_params_concat(p0 + p1 + p2 + p3 + p4, p5);
        crate::http::lemma_params_concat(p0 + p1 + p2 + p3 + p4 + p5, p6);
        crate::http::lemma_params_concat(p0 + p1 + p2 + p3 + p4 + p5 + p6, p7);
        assert(cookie_fields(args, computer) == Ok::<Seq<(Seq<char>, Seq<char>)>, ErrorView>(
            p0 + p1 + p2 + p3 + p4 + p5 + p6 + p7,
        ));
    }
}

/// A cookie text holds each of its fields as `name=value`, the value
/// URL-encoded: the first field opens it, and every later one follows an
/// `&` at the place where the fields before it end.
pub proof fn law_cookie_text(f: Seq<(Seq<char>, Seq<char>)>)
    ensures
        f.len() > 0 ==> occurs_at(query_of(f), f[0].0 + "="@ + url_encoded(f[0].1), 0),
        forall|i: int|
            1 <= i < f.len() ==> occurs_at(
                query_of(f),
                "&"@ + f[i].0 + "="@ + url_encoded(f[i].1),
                (#[trigger] query_of(f.take(i))).len() as int,
            ),
    decreases f.len(),
{
    reveal_strlit("&");
    reveal_strlit("=");
    if f.len() > 1 {
        let g = f.drop_last();
        law_cookie_text(g);
        let q = query_of(f);
        let tail = "&"@ + f.last().0 + "="@ + url_encoded(f.last().1);
        assert(q =~= query_of(g) + tail);
        assert forall|i: int| 1 <= i < f.len() implies occurs_at(
            q,
            "&"@ + f[i].0 + "="@ + url_encoded(f[i].1),
            (#[trigger] query_of(f.take(i))).len() as int,
        ) by {
            let piece = "&"@ + f[i].0 + "="@ + url_encoded(f[i].1);
            if i == f.len() - 1 {
                assert(f.take(i) =~= g);
                assert(q.subrange(query_of(g).len() as int, q.len() as int) =~= tail);
            } else {
                assert(f.take(i) =~= g.take(i));
                assert(g[i] == f[i]);
                let at = query_of(g.take(i)).len() as int;
                assert(occurs_at(query_of(g), piece, at));
                assert(q.subrange(at, at + piece.len()) =~= query_of(g).subrange(at, at + piece.len()));
            }
        }
        let first = f[0].0 + "="@ + url_encoded(f[0].1);
        assert(g[0] == f[0]);
        assert(q.subrange(0, first.len() as int) =~= query_of(g).subrange(0, first.len() as int));
    } else if f.len() == 1 {
        assert(query_of(f).subrange(0, query_of(f).len() as int) =~= query_of(f));
    }
}

} // verus!
