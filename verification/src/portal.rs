//! `global-protect/getconfig.esp` - portal login, which also returns the list
//! of gateways the user may connect to.
use vstd::prelude::*;

use crate::credential::{credential_params, Credential, CredentialView};
use crate::error::{Error, ErrorView};
use crate::http::{host_of, host_text, lookup, pairs, param, Params};
use crate::prelogin::{root_text, root_text_in};
use crate::profile::{client_version_of, opt_view, os_name, ClientOs, Profile, ProfileView};
use crate::text::{chars_of, same, string_of, trim, trim_chars};
use crate::xml::{
    attribute_in, body_error, check_for_error, child_tagged, child_text_of, find_of, first_where,
    lemma_first_where, parse as parse_xml, parsed, root_of, subtree_end, Document, XmlNodeView,
};

verus! {

#[derive(Debug)]
pub struct Gateway {
    /// Host name (sometimes `host:port`) used as the connection target.
    pub address: String,
    /// Human readable label shown in the UI.
    pub name: String,
}

/// A `Gateway` as plain values.
pub struct GatewayView {
    pub address: Seq<char>,
    pub name: Seq<char>,
}

impl View for Gateway {
    type V = GatewayView;

    open spec fn view(&self) -> GatewayView {
        GatewayView { address: self.address@, name: self.name@ }
    }
}

impl Clone for Gateway {
    fn clone(&self) -> (r: Self)
        ensures
            r@ == self@,
    {
        Gateway { address: self.address.clone(), name: self.name.clone() }
    }
}

/// Gateways as plain values.
pub open spec fn gateways_view(g: Seq<Gateway>) -> Seq<GatewayView> {
    g.map_values(|x: Gateway| x@)
}

/// Copies a list of gateways.
pub fn clone_gateways(g: &Vec<Gateway>) -> (r: Vec<Gateway>)
    ensures
        gateways_view(r@) == gateways_view(g@),
{
    let mut out: Vec<Gateway> = Vec::new();
    let mut i: usize = 0;
    while i < g.len()
        invariant
            i <= g@.len(),
            gateways_view(out@) == gateways_view(g@.take(i as int)),
        decreases g@.len() - i,
    {
        out.push(g[i].clone());
        i = i + 1;
        assert(gateways_view(g@.take(i as int)) =~= gateways_view(g@.take(i - 1)).push(g@[i - 1]@));
        assert(gateways_view(out@) =~= gateways_view(g@.take(i - 1)).push(g@[i - 1]@));
    }
    assert(g@.take(g@.len() as int) == g@);
    out
}

#[derive(Debug)]
pub struct PortalConfig {
    pub gateways: Vec<Gateway>,
    pub portal_name: Option<String>,
    pub user_auth_cookie: Option<String>,
    pub prelogon_user_auth_cookie: Option<String>,
    /// Version the portal reports; parroting it back keeps gateways from
    /// rejecting us as an obsolete client.
    pub portal_version: Option<String>,
}

/// A `PortalConfig` as plain values.
pub struct PortalConfigView {
    pub gateways: Seq<GatewayView>,
    pub portal_name: Option<Seq<char>>,
    pub user_auth_cookie: Option<Seq<char>>,
    pub prelogon_user_auth_cookie: Option<Seq<char>>,
    pub portal_version: Option<Seq<char>>,
}

impl View for PortalConfig {
    type V = PortalConfigView;

    open spec fn view(&self) -> PortalConfigView {
        PortalConfigView {
            gateways: gateways_view(self.gateways@),
            portal_name: opt_view(self.portal_name),
            user_auth_cookie: opt_view(self.user_auth_cookie),
            prelogon_user_auth_cookie: opt_view(self.prelogon_user_auth_cookie),
            portal_version: opt_view(self.portal_version),
        }
    }
}

/// The portal login body a real client sends.
pub open spec fn portal_fields(
    credential: Seq<(Seq<char>, Seq<char>)>,
    p: ProfileView,
    base_url: Seq<char>,
    input_str: Seq<char>,
) -> Seq<(Seq<char>, Seq<char>)> {
    credential + seq![
        ("inputStr"@, input_str),
        ("ok"@, "Login"@),
        ("clientVer"@, "4100"@),
        ("clientos"@, os_name(p.client_os)),
        ("clientgpversion"@, p.client_version),
        ("computer"@, p.computer),
        ("os-version"@, p.os_version),
        ("host-id"@, p.host_id),
        ("ipv6-support"@, "yes"@),
        ("serialno"@, p.serialno),
        ("csc-digest"@, ""@),
        ("config-digest"@, ""@),
        ("csc-support"@, if p.client_os != crate::profile::ClientOs::Linux { "yes"@ } else { "no"@ }),
        ("host"@, host_text(base_url)),
        ("swg-auth-token"@, "0"@),
        ("swg-nonce"@, "0"@),
    ]
}

/// The portal login body.
pub fn build_params(credential: &Credential, profile: &Profile, base_url: &str, input_str: &str) -> (r:
    Params)
    ensures
        pairs(r@) == portal_fields(
            credential_params(credential@, profile.client_os),
            profile@,
            base_url@,
            input_str@,
        ),
{
    let mut body = credential.params(profile);
    let ghost c = pairs(body@);
    let host = host_of(base_url);
    let mut more = vec![
        param("inputStr", input_str),
        param("ok", "Login"),
        param("clientVer", "4100"),
        param("clientos", profile.client_os.as_str()),
        param("clientgpversion", profile.client_version.as_str()),
        param("computer", profile.computer.as_str()),
        param("os-version", profile.os_version.as_str()),
        param("host-id", profile.host_id.as_str()),
        param("ipv6-support", "yes"),
        param("serialno", profile.serialno.as_str()),
        param("csc-digest", ""),
        param("config-digest", ""),
        param("csc-support", if profile.client_os.csc_support() { "yes" } else { "no" }),
        param("host", host.as_str()),
        param("swg-auth-token", "0"),
        param("swg-nonce", "0"),
    ];
    let ghost m = pairs(more@);
    body.append(&mut more);
    assert(pairs(body@) =~= c + m);
    assert(pairs(body@) =~= portal_fields(c, profile@, base_url@, input_str@));
    body
}

/// The portal writes `empty` (or nothing) when there is no cookie to reuse.
pub open spec fn cookie_of(value: Option<Seq<char>>) -> Option<Seq<char>> {
    match value {
        Some(v) if v.len() > 0 && v != "empty"@ => Some(v),
        _ => None,
    }
}

/// The portal writes `empty` (or nothing) when there is no cookie to reuse.
pub fn cookie_value(value: Option<String>) -> (r: Option<String>)
    ensures
        opt_view(r) == cookie_of(opt_view(value)),
{
    match value {
        Some(v) => {
            let c = chars_of(v.as_str());
            if c.len() > 0 && !same(&c, &chars_of("empty")) {
                Some(v)
            } else {
                None
            }
        },
        None => None,
    }
}

/// The gateway an `entry` node describes, if it names an address.
pub open spec fn entry_gateway(n: Seq<XmlNodeView>, j: int) -> Option<GatewayView> {
    match attribute_in(n[j].attributes, "name"@) {
        Some(a) if trim(a).len() > 0 => Some(
            GatewayView {
                address: trim(a),
                name: match child_text_of(n, j, "description"@) {
                    Some(d) => d,
                    None => trim(a),
                },
            },
        ),
        _ => None,
    }
}

/// The gateways listed by the `entry` children of node `list` found in
/// `j..end`.
pub open spec fn entries_from(n: Seq<XmlNodeView>, list: int, j: int, end: int) -> Seq<GatewayView>
    decreases end - j,
{
    if j >= end || j < 0 || j >= n.len() {
        Seq::empty()
    } else {
        let rest = entries_from(n, list, j + 1, end);
        if child_tagged(n[list].depth, "entry"@)(n[j]) {
            match entry_gateway(n, j) {
                Some(g) => seq![g] + rest,
                None => rest,
            }
        } else {
            rest
        }
    }
}

/// `policy/gateways/external/list/entry[@name]`, read from the root element.
pub open spec fn gateways_of(n: Seq<XmlNodeView>) -> Seq<GatewayView> {
    match root_of(n) {
        None => Seq::empty(),
        Some(root) => match find_of(n, root, "gateways"@) {
            None => Seq::empty(),
            Some(g) => match find_of(n, g, "external"@) {
                None => Seq::empty(),
                Some(e) => match find_of(n, e, "list"@) {
                    None => Seq::empty(),
                    Some(l) => entries_from(n, l, l + 1, subtree_end(n, l)),
                },
            },
        },
    }
}

/// What a portal configuration reply says, given its parsed document.
pub open spec fn config_of(n: Seq<XmlNodeView>) -> PortalConfigView {
    PortalConfigView {
        portal_name: root_text(n, "portal-name"@),
        user_auth_cookie: cookie_of(root_text(n, "portal-userauthcookie"@)),
        prelogon_user_auth_cookie: cookie_of(root_text(n, "portal-prelogonuserauthcookie"@)),
        portal_version: match root_of(n) {
            None => None,
            Some(root) => match find_of(n, root, "policy"@) {
                None => None,
                Some(p) => child_text_of(n, p, "version"@),
            },
        },
        gateways: gateways_of(n),
    }
}

/// What a portal configuration reply body says.
pub open spec fn config_reply(body: Seq<char>) -> Result<PortalConfigView, ErrorView> {
    match body_error(body) {
        Some(e) => Err(e),
        None => match parsed(body) {
            Err(e) => Err(e),
            Ok(n) => Ok(config_of(n)),
        },
    }
}

/// `Result<PortalConfig, Error>` as plain values.
pub open spec fn config_result(r: Result<PortalConfig, Error>) -> Result<PortalConfigView, ErrorView> {
    match r {
        Ok(c) => Ok(c@),
        Err(e) => Err(e@),
    }
}

/// The gateways listed under node `list`.
fn list_entries(doc: &Document, list: usize) -> (r: Vec<Gateway>)
    requires
        list < doc@.len(),
    ensures
        gateways_view(r@) == entries_from(doc@, list as int, list + 1, subtree_end(doc@, list as int)),
{
    let ghost n = doc@;
    let end = doc.subtree_end(list);
    let d = doc.nodes[list].depth;
    let entry = chars_of("entry");
    let mut out: Vec<Gateway> = Vec::new();
    let mut j: usize = list + 1;
    // The entries from `j` on are collected after those already in `out`.
    while j < end
        invariant
            n == doc@,
            list < n.len(),
            list < j <= end <= n.len(),
            end as int == subtree_end(n, list as int),
            d as nat == n[list as int].depth,
            entry@ == "entry"@,
            entries_from(n, list as int, list + 1, end as int) == gateways_view(out@) + entries_from(
                n,
                list as int,
                j as int,
                end as int,
            ),
        decreases end - j,
    {
        let ghost before = gateways_view(out@);
        let is_entry = d < usize::MAX && doc.nodes[j].depth == d + 1 && doc.has_tag_name(j, &entry);
        proof {
            assert(n[j as int] == doc.nodes@[j as int]@);
            if d == usize::MAX {
                assert(!child_tagged(n[list as int].depth, "entry"@)(n[j as int]));
            }
            assert(is_entry == child_tagged(n[list as int].depth, "entry"@)(n[j as int]));
        }
        if is_entry {
            match doc.attribute(j, "name") {
                Some(a) => {
                    let address = trim_chars(&chars_of(a.as_str()));
                    if address.len() > 0 {
                        let name = match doc.child_text(j, "description") {
                            Some(t) => t,
                            None => string_of(&address),
                        };
                        out.push(Gateway { address: string_of(&address), name });
                        assert(gateways_view(out@) =~= before.push(entry_gateway(n, j as int)->0));
                    }
                },
                None => {},
            }
        }
        j = j + 1;
    }
    assert(entries_from(n, list as int, j as int, end as int) == Seq::<GatewayView>::empty());
    assert(gateways_view(out@) + Seq::<GatewayView>::empty() =~= gateways_view(out@));
    out
}

/// Node `i`'s first descendant-or-self with this tag, if `i` is given.
fn find_in(doc: &Document, i: Option<usize>, tag: &str) -> (r: Option<usize>)
    requires
        i matches Some(k) ==> k < doc@.len(),
    ensures
        match i {
            None => r is None,
            Some(k) => match r {
                Some(j) => find_of(doc@, k as int, tag@) == Some(j as int) && j < doc@.len(),
                None => find_of(doc@, k as int, tag@) is None,
            },
        },
{
    match i {
        Some(k) => doc.find(k, tag),
        None => None,
    }
}

/// What a parsed portal configuration reply says.
pub fn config_from(doc: &Document) -> (r: PortalConfig)
    ensures
        r@ == config_of(doc@),
{
    let root = doc.root_element();
    let policy = find_in(doc, root, "policy");
    let portal_version = match policy {
        Some(p) => doc.child_text(p, "version"),
        None => None,
    };
    let list = find_in(doc, find_in(doc, find_in(doc, root, "gateways"), "external"), "list");
    let gateways = match list {
        Some(l) => list_entries(doc, l),
        None => Vec::new(),
    };
    let r = PortalConfig {
        portal_name: root_text_in(doc, "portal-name"),
        user_auth_cookie: cookie_value(root_text_in(doc, "portal-userauthcookie")),
        prelogon_user_auth_cookie: cookie_value(root_text_in(doc, "portal-prelogonuserauthcookie")),
        portal_version,
        gateways,
    };
    assert(r@.gateways =~= config_of(doc@).gateways);
    r
}

/// Reads a portal configuration reply.
pub fn parse(body: &str) -> (r: Result<PortalConfig, Error>)
    ensures
        config_result(r) == config_reply(body@),
{
    match check_for_error(body) {
        Err(e) => {
            return Err(e);
        },
        Ok(()) => {},
    }
    match parse_xml(body) {
        Err(e) => Err(e),
        Ok(doc) => Ok(config_from(&doc)),
    }
}

/// Every gateway read from a portal's list has a non-empty address with no
/// white space at either end.
pub proof fn law_gateway_addresses_are_trimmed(n: Seq<XmlNodeView>, list: int, j: int, end: int)
    ensures
        forall|k: int|
            0 <= k < entries_from(n, list, j, end).len() ==> {
                let a = #[trigger] entries_from(n, list, j, end)[k].address;
                a.len() > 0 && a == trim(a)
            },
    decreases end - j,
{
    if !(j >= end || j < 0 || j >= n.len()) {
        law_gateway_addresses_are_trimmed(n, list, j + 1, end);
        let rest = entries_from(n, list, j + 1, end);
        match attribute_in(n[j].attributes, "name"@) {
            Some(a) if trim(a).len() > 0 => {
                crate::text::lemma_trim_idempotent(a);
                let g = entry_gateway(n, j)->0;
                assert forall|k: int| 0 <= k < (seq![g] + rest).len() implies {
                    let a = #[trigger] (seq![g] + rest)[k].address;
                    a.len() > 0 && a == trim(a)
                } by {
                    if k > 0 {
                        assert((seq![g] + rest)[k] == rest[k - 1]);
                    }
                }
            },
            _ => {},
        }
    }
}

/// The names of a portal login body's fields, in order.
spec fn portal_keys() -> Seq<Seq<char>> {
    seq![
        "user"@,
        "passwd"@,
        "prelogin-cookie"@,
        "portal-userauthcookie"@,
        "portal-prelogonuserauthcookie"@,
        "token"@,
        "inputStr"@,
        "ok"@,
        "clientVer"@,
        "clientos"@,
        "clientgpversion"@,
        "computer"@,
        "os-version"@,
        "host-id"@,
        "ipv6-support"@,
        "serialno"@,
        "csc-digest"@,
        "config-digest"@,
        "csc-support"@,
        "host"@,
        "swg-auth-token"@,
        "swg-nonce"@,
    ]
}

/// No name occurs twice among the portal login fields.
proof fn lemma_portal_keys_distinct()
    ensures
        forall|i: int, j: int|
            0 <= i < j < portal_keys().len() ==> #[trigger] portal_keys()[i] != #[trigger] portal_keys()[j],
{
    reveal_strlit("user");
    reveal_strlit("passwd");
    reveal_strlit("prelogin-cookie");
    reveal_strlit("portal-userauthcookie");
    reveal_strlit("portal-prelogonuserauthcookie");
    reveal_strlit("token");
    reveal_strlit("inputStr");
    reveal_strlit("ok");
    reveal_strlit("clientVer");
    reveal_strlit("clientos");
    reveal_strlit("clientgpversion");
    reveal_strlit("computer");
    reveal_strlit("os-version");
    reveal_strlit("host-id");
    reveal_strlit("ipv6-support");
    reveal_strlit("serialno");
    reveal_strlit("csc-digest");
    reveal_strlit("config-digest");
    reveal_strlit("csc-support");
    reveal_strlit("host");
    reveal_strlit("swg-auth-token");
    reveal_strlit("swg-nonce");
    assert("user"@.len() == 4 && "user"@[0] == 'u');
    assert("passwd"@.len() == 6 && "passwd"@[0] == 'p');
    assert("prelogin-cookie"@.len() == 15 && "prelogin-cookie"@[0] == 'p');
    assert("portal-userauthcookie"@.len() == 21 && "portal-userauthcookie"@[0] == 'p');
    assert("portal-prelogonuserauthcookie"@.len() == 29 && "portal-prelogonuserauthcookie"@[0] == 'p');
    assert("token"@.len() == 5 && "token"@[0] == 't');
    assert("inputStr"@.len() == 8 && "inputStr"@[0] == 'i');
    assert("ok"@.len() == 2 && "ok"@[0] == 'o');
    assert("clientVer"@.len() == 9 && "clientVer"@[0] == 'c');
    assert("clientos"@.len() == 8 && "clientos"@[0] == 'c');
    assert("clientgpversion"@.len() == 15 && "clientgpversion"@[0] == 'c');
    assert("computer"@.len() == 8 && "computer"@[0] == 'c');
    assert("os-version"@.len() == 10 && "os-version"@[0] == 'o');
    assert("host-id"@.len() == 7 && "host-id"@[0] == 'h');
    assert("ipv6-support"@.len() == 12 && "ipv6-support"@[0] == 'i');
    assert("serialno"@.len() == 8 && "serialno"@[0] == 's');
    assert("csc-digest"@.len() == 10 && "csc-digest"@[0] == 'c');
    assert("config-digest"@.len() == 13 && "config-digest"@[0] == 'c');
    assert("csc-support"@.len() == 11 && "csc-support"@[0] == 'c');
    assert("host"@.len() == 4 && "host"@[0] == 'h');
    assert("swg-auth-token"@.len() == 14 && "swg-auth-token"@[0] == 's');
    assert("swg-nonce"@.len() == 9 && "swg-nonce"@[0] == 's');
    // The names that share a length and a first letter differ further on.
    assert("clientos"@[1] != "computer"@[1]);
}

/// What the portal is told, field by field: no name occurs twice; the
/// credential's fields come first; then the code being answered, and the
/// machine as the profile describes it - the reported OS's name, the client
/// version, the computer, the OS version, the host id and the serial - and
/// the portal's bare host; CSC is advertised by every OS but Linux.
pub proof fn law_portal_fields(
    c: CredentialView,
    p: ProfileView,
    base_url: Seq<char>,
    input_str: Seq<char>,
)
    ensures
        ({
            let f = portal_fields(credential_params(c, p.client_os), p, base_url, input_str);
            &&& f.len() == 22
            &&& forall|a: int, b: int| 0 <= a < b < f.len() ==> #[trigger] f[a].0 != #[trigger] f[b].0
            &&& f.take(6) == credential_params(c, p.client_os)
            &&& lookup(f, "inputStr"@) == Some(input_str)
            &&& lookup(f, "clientos"@) == Some(
                match p.client_os {
                    ClientOs::Linux => "Linux"@,
                    ClientOs::Windows => "Windows"@,
                    ClientOs::Mac => "Mac"@,
                },
            )
            &&& lookup(f, "clientgpversion"@) == Some(p.client_version)
            &&& lookup(f, "computer"@) == Some(p.computer)
            &&& lookup(f, "os-version"@) == Some(p.os_version)
            &&& lookup(f, "host-id"@) == Some(p.host_id)
            &&& lookup(f, "serialno"@) == Some(p.serialno)
            &&& lookup(f, "host"@) == Some(host_text(base_url))
            &&& lookup(f, "csc-support"@) == Some(
                if p.client_os == ClientOs::Linux {
                    "no"@
                } else {
                    "yes"@
                },
            )
        }),
{
    let cred = credential_params(c, p.client_os);
    let f = portal_fields(cred, p, base_url, input_str);
    crate::credential::law_credential_fields(c, p.client_os);
    assert forall|k: int| 0 <= k < f.len() implies #[trigger] f[k].0 == portal_keys()[k] by {
        if k < 6 {
            assert(f[k] == cred[k]);
        }
    }
    lemma_portal_keys_distinct();
    assert forall|a: int, b: int| 0 <= a < b < f.len() implies #[trigger] f[a].0 != #[trigger] f[b].0 by {
        assert(portal_keys()[a] != portal_keys()[b]);
    }
    assert(f.take(6) =~= cred);
    crate::gateway::lemma_lookup_unique(f, 6);
    crate::gateway::lemma_lookup_unique(f, 9);
    crate::gateway::lemma_lookup_unique(f, 10);
    crate::gateway::lemma_lookup_unique(f, 11);
    crate::gateway::lemma_lookup_unique(f, 12);
    crate::gateway::lemma_lookup_unique(f, 13);
    crate::gateway::lemma_lookup_unique(f, 15);
    crate::gateway::lemma_lookup_unique(f, 18);
    crate::gateway::lemma_lookup_unique(f, 19);
}

} // verus!
