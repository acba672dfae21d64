//! What the tunnel needs from libopenconnect, decided ahead of the calls: the
//! scripts it runs, the settings it is given and in which order, and how a
//! failed call is reported.
//!
//! Authentication is not done here: the login produces a cookie, which
//! stands in for openconnect's own GlobalProtect login; libopenconnect is only
//! asked to build the tunnel.
use vstd::prelude::*;

use crate::profile::opt_view;
use crate::text::{chars_of, contains, push_chars, push_str, string_of};
use crate::tls::{given, non_empty};

verus! {

/// Where distributions put the tunnel-configuration script, most specific
/// first. openconnect cannot bring an interface up without one.
pub open spec fn vpnc_locations() -> Seq<Seq<char>> {
    seq![
        "/usr/local/libexec/gpclient/vpnc-script"@,
        "/usr/libexec/gpclient/vpnc-script"@,
        "/usr/lib/gpclient/vpnc-script"@,
        "/usr/local/share/vpnc-scripts/vpnc-script"@,
        "/usr/local/sbin/vpnc-script"@,
        "/usr/share/vpnc-scripts/vpnc-script"@,
        "/usr/sbin/vpnc-script"@,
        "/etc/vpnc/vpnc-script"@,
        "/etc/openconnect/vpnc-script"@,
        "/usr/libexec/vpnc-scripts/vpnc-script"@,
    ]
}

/// HIP report generators shipped alongside openconnect. Gateways that demand
/// a host-information report reject or restrict the session without one.
pub open spec fn hip_locations() -> Seq<Seq<char>> {
    seq![
        "/usr/local/libexec/gpclient/hipreport.sh"@,
        "/usr/libexec/gpclient/hipreport.sh"@,
        "/usr/lib/x86_64-linux-gnu/openconnect/hipreport.sh"@,
        "/usr/lib/aarch64-linux-gnu/openconnect/hipreport.sh"@,
        "/usr/lib/openconnect/hipreport.sh"@,
        "/usr/libexec/openconnect/hipreport.sh"@,
    ]
}

/// Locations as plain values.
pub open spec fn paths_view(v: Seq<&'static str>) -> Seq<Seq<char>> {
    v.map_values(|s: &'static str| s@)
}

/// The vpnc-script locations, most specific first.
pub fn vpnc_script_locations() -> (r: Vec<&'static str>)
    ensures
        paths_view(r@) == vpnc_locations(),
{
    let r = vec![
        "/usr/local/libexec/gpclient/vpnc-script",
        "/usr/libexec/gpclient/vpnc-script",
        "/usr/lib/gpclient/vpnc-script",
        "/usr/local/share/vpnc-scripts/vpnc-script",
        "/usr/local/sbin/vpnc-script",
        "/usr/share/vpnc-scripts/vpnc-script",
        "/usr/sbin/vpnc-script",
        "/etc/vpnc/vpnc-script",
        "/etc/openconnect/vpnc-script",
        "/usr/libexec/vpnc-scripts/vpnc-script",
    ];
    assert(paths_view(r@) =~= vpnc_locations());
    r
}

/// The HIP report script locations, most specific first.
pub fn hip_script_locations() -> (r: Vec<&'static str>)
    ensures
        paths_view(r@) == hip_locations(),
{
    let r = vec![
        "/usr/local/libexec/gpclient/hipreport.sh",
        "/usr/libexec/gpclient/hipreport.sh",
        "/usr/lib/x86_64-linux-gnu/openconnect/hipreport.sh",
        "/usr/lib/aarch64-linux-gnu/openconnect/hipreport.sh",
        "/usr/lib/openconnect/hipreport.sh",
        "/usr/libexec/openconnect/hipreport.sh",
    ];
    assert(paths_view(r@) =~= hip_locations());
    r
}

/// The first location that `is_executable` accepts, asking about each in
/// order and none after the first it accepts.
pub fn first_executable<F: Fn(&str) -> bool>(locations: &Vec<&'static str>, is_executable: F) -> (r:
    Option<&'static str>)
    requires
        forall|i: int| 0 <= i < locations@.len() ==> is_executable.requires((locations@[i],)),
    ensures
        match r {
            Some(p) => exists|i: int|
                #![trigger locations@[i]]
                0 <= i < locations@.len() && locations@[i] == p && is_executable.ensures(
                    (locations@[i],),
                    true,
                ) && forall|j: int|
                    0 <= j < i ==> is_executable.ensures((#[trigger] locations@[j],), false),
            None => forall|i: int|
                0 <= i < locations@.len() ==> is_executable.ensures((#[trigger] locations@[i],), false),
        },
{
    let mut i: usize = 0;
    while i < locations.len()
        invariant
            i <= locations@.len(),
            forall|k: int| 0 <= k < locations@.len() ==> is_executable.requires((locations@[k],)),
            forall|j: int| 0 <= j < i ==> is_executable.ensures((#[trigger] locations@[j],), false),
        decreases locations@.len() - i,
    {
        let location = locations[i];
        if is_executable(location) {
            return Some(location);
        }
        i = i + 1;
    }
    None
}

/// `is_executable` said no for the location `path`.
pub open spec fn refused<F: Fn(&str) -> bool>(is_executable: F, path: Seq<char>) -> bool {
    exists|q: &str| #[trigger] is_executable.ensures((q,), false) && q@ == path
}

/// `is_executable` said yes for the location `path`.
pub open spec fn accepted<F: Fn(&str) -> bool>(is_executable: F, path: Seq<char>) -> bool {
    exists|q: &str| #[trigger] is_executable.ensures((q,), true) && q@ == path
}

/// `r` is the first of `paths` that `is_executable` accepted: every one before
/// it was asked and refused; `None` when every one was refused.
pub open spec fn first_found<F: Fn(&str) -> bool>(paths: Seq<Seq<char>>, r: Option<&'static str>, is_executable: F) -> bool {
    match r {
        Some(p) => exists|i: int|
            0 <= i < paths.len() && #[trigger] paths[i] == p@ && is_executable.ensures((p,), true)
                && forall|j: int| 0 <= j < i ==> refused(is_executable, #[trigger] paths[j]),
        None => forall|i: int| 0 <= i < paths.len() ==> refused(is_executable, #[trigger] paths[i]),
    }
}

/// What `first_executable` found, in terms of the locations' text.
proof fn lemma_first_found<F: Fn(&str) -> bool>(locations: Seq<&'static str>, r: Option<&'static str>, is_executable: F)
    requires
        match r {
            Some(p) => exists|i: int|
                #![trigger locations[i]]
                0 <= i < locations.len() && locations[i] == p && is_executable.ensures(
                    (locations[i],),
                    true,
                ) && forall|j: int|
                    0 <= j < i ==> is_executable.ensures((#[trigger] locations[j],), false),
            None => forall|i: int|
                0 <= i < locations.len() ==> is_executable.ensures((#[trigger] locations[i],), false),
        },
    ensures
        first_found(paths_view(locations), r, is_executable),
{
    let v = paths_view(locations);
    match r {
        Some(p) => {
            let i = choose|i: int|
                #![trigger locations[i]]
                0 <= i < locations.len() && locations[i] == p && is_executable.ensures(
                    (locations[i],),
                    true,
                ) && forall|j: int|
                    0 <= j < i ==> is_executable.ensures((#[trigger] locations[j],), false);
            assert(v[i] == p@);
            assert forall|j: int| 0 <= j < i implies refused(is_executable, #[trigger] v[j]) by {
                assert(is_executable.ensures((locations[j],), false));
                assert(v[j] == locations[j]@);
            }
        },
        None => {
            assert forall|i: int| 0 <= i < v.len() implies refused(is_executable, #[trigger] v[i]) by {
                assert(is_executable.ensures((locations[i],), false));
                assert(v[i] == locations[i]@);
            }
        },
    }
}

/// The vpnc-script to use: the first executable one of the known locations.
pub fn find_vpnc_script<F: Fn(&str) -> bool>(is_executable: F) -> (r: Option<&'static str>)
    requires
        forall|p: &str| is_executable.requires((p,)),
    ensures
        first_found(vpnc_locations(), r, is_executable),
{
    let locations = vpnc_script_locations();
    let r = first_executable(&locations, is_executable);
    proof {
        lemma_first_found(locations@, r, is_executable);
    }
    r
}

/// The HIP report script to use: the first executable one of the known
/// locations.
pub fn find_hip_script<F: Fn(&str) -> bool>(is_executable: F) -> (r: Option<&'static str>)
    requires
        forall|p: &str| is_executable.requires((p,)),
    ensures
        first_found(hip_locations(), r, is_executable),
{
    let locations = hip_script_locations();
    let r = first_executable(&locations, is_executable);
    proof {
        lemma_first_found(locations@, r, is_executable);
    }
    r
}

/// Everything libopenconnect is told before it builds the tunnel.
pub struct Options {
    /// `https://gateway[:port]` the cookie was issued for.
    pub gateway_url: String,
    /// Session cookie from the login.
    pub cookie: String,
    /// Machine name sent at login; openconnect re-sends it with the cookie.
    pub computer: String,
    /// One of openconnect's own OS names: `linux-64`, `win`, `mac-intel`.
    pub reported_os: String,
    pub cafile: Option<String>,
    pub client_cert: Option<String>,
    pub client_key: Option<String>,
    /// Overrides vpnc-script discovery.
    pub script: Option<String>,
    /// HIP report generator, when the gateway asks for one.
    pub hip_script: Option<String>,
    pub log_level: i32,
}

/// What the tunnel ended up with.
pub struct ConnectionInfo {
    pub ifname: String,
    pub address: Option<String>,
    pub dns: Vec<String>,
}

/// The message for a value a C string cannot carry.
pub open spec fn nul_message() -> Seq<char> {
    "value contains an unsupported NUL byte"@
}

/// A value handed to libopenconnect as a C string; one with a NUL byte in
/// it cannot be.
pub fn c_string(value: &str) -> (r: Result<String, String>)
    ensures
        !contains(value@, seq!['\0']) ==> (r matches Ok(v) && v@ == value@),
        contains(value@, seq!['\0']) ==> (r matches Err(m) && m@ == nul_message()),
{
    let v = chars_of(value);
    let nul = vec!['\0'];
    assert(nul@ =~= seq!['\0']);
    if crate::text::contains_chars(&v, &nul) {
        Err(String::from_str("value contains an unsupported NUL byte"))
    } else {
        Ok(String::from_str(value))
    }
}

/// One libopenconnect setting.
pub enum Setting {
    Protocol(String),
    ReportedOs(String),
    LogLevel(i32),
    CaFile(String),
    ClientCert(String, String),
    GatewayUrl(String),
    Cookie(String),
    LocalName(String),
    HipScript(String),
}

/// How a setting is named when its call fails.
pub open spec fn setting_name(s: Setting) -> Seq<char> {
    match s {
        Setting::Protocol(_) => "set protocol"@,
        Setting::ReportedOs(_) => "set reported OS"@,
        Setting::LogLevel(_) => "set log level"@,
        Setting::CaFile(_) => "set CA file"@,
        Setting::ClientCert(_, _) => "set client certificate"@,
        Setting::GatewayUrl(_) => "parse gateway URL"@,
        Setting::Cookie(_) => "set session cookie"@,
        Setting::LocalName(_) => "set local host name"@,
        Setting::HipScript(_) => "set up HIP report script"@,
    }
}

impl Setting {
    /// How the setting is named when its call fails.
    pub fn description(&self) -> (r: &'static str)
        ensures
            r@ == setting_name(*self),
    {
        match self {
            Setting::Protocol(_) => "set protocol",
            Setting::ReportedOs(_) => "set reported OS",
            Setting::LogLevel(_) => "set log level",
            Setting::CaFile(_) => "set CA file",
            Setting::ClientCert(_, _) => "set client certificate",
            Setting::GatewayUrl(_) => "parse gateway URL",
            Setting::Cookie(_) => "set session cookie",
            Setting::LocalName(_) => "set local host name",
            Setting::HipScript(_) => "set up HIP report script",
        }
    }
}

/// The result of a libopenconnect call: 0 is success, anything else the
/// failure of what was being done.
pub open spec fn call_outcome(description: Seq<char>, result: i32) -> Result<(), Seq<char>> {
    if result == 0 {
        Ok(())
    } else {
        Err(description + " failed: "@ + crate::text::signed_decimal(result as int))
    }
}

/// Turns the result of a libopenconnect call into the error the attempt
/// fails with.
pub fn call(description: &str, result: i32) -> (r: Result<(), String>)
    ensures
        match call_outcome(description@, result) {
            Ok(()) => r is Ok,
            Err(m) => r matches Err(x) && x@ == m,
        },
{
    if result == 0 {
        return Ok(());
    }
    let mut out = chars_of(description);
    push_str(&mut out, " failed: ");
    let d = crate::text::signed_decimal_chars(result as i64);
    push_chars(&mut out, &d);
    Err(string_of(&out))
}

/// A value with no NUL byte in it.
pub open spec fn c_safe(v: Seq<char>) -> bool {
    !contains(v, seq!['\0'])
}

/// A setting as plain values.
pub enum SettingView {
    Protocol(Seq<char>),
    ReportedOs(Seq<char>),
    LogLevel(i32),
    CaFile(Seq<char>),
    ClientCert(Seq<char>, Seq<char>),
    GatewayUrl(Seq<char>),
    Cookie(Seq<char>),
    LocalName(Seq<char>),
    HipScript(Seq<char>),
}

impl View for Setting {
    type V = SettingView;

    open spec fn view(&self) -> SettingView {
        match self {
            Setting::Protocol(v) => SettingView::Protocol(v@),
            Setting::ReportedOs(v) => SettingView::ReportedOs(v@),
            Setting::LogLevel(l) => SettingView::LogLevel(*l),
            Setting::CaFile(v) => SettingView::CaFile(v@),
            Setting::ClientCert(c, k) => SettingView::ClientCert(c@, k@),
            Setting::GatewayUrl(v) => SettingView::GatewayUrl(v@),
            Setting::Cookie(v) => SettingView::Cookie(v@),
            Setting::LocalName(v) => SettingView::LocalName(v@),
            Setting::HipScript(v) => SettingView::HipScript(v@),
        }
    }
}

/// Settings as plain values.
pub open spec fn settings_view(v: Seq<Setting>) -> Seq<SettingView> {
    v.map_values(|s: Setting| s@)
}

/// Both halves of the client identity, when both are configured.
pub open spec fn identity_of(o: Options) -> Option<(Seq<char>, Seq<char>)> {
    match (given(opt_view(o.client_cert)), given(opt_view(o.client_key))) {
        (Some(c), Some(k)) => Some((c, k)),
        _ => None,
    }
}

/// Every value that goes to libopenconnect fits in a C string.
pub open spec fn all_c_safe(o: Options) -> bool {
    &&& c_safe(o.reported_os@)
    &&& (given(opt_view(o.cafile)) matches Some(f) ==> c_safe(f))
    &&& (identity_of(o) matches Some((c, k)) ==> c_safe(c) && c_safe(k))
    &&& c_safe(o.gateway_url@)
    &&& c_safe(o.cookie@)
    &&& c_safe(o.computer@)
    &&& (given(opt_view(o.hip_script)) matches Some(h) ==> c_safe(h))
}

/// The settings for a tunnel, in the order they are applied.
pub open spec fn settings_of(o: Options) -> Seq<SettingView> {
    seq![
        SettingView::Protocol("gp"@),
        SettingView::ReportedOs(o.reported_os@),
        SettingView::LogLevel(o.log_level),
    ] + match given(opt_view(o.cafile)) {
        Some(f) => seq![SettingView::CaFile(f)],
        None => Seq::empty(),
    } + match identity_of(o) {
        Some((c, k)) => seq![SettingView::ClientCert(c, k)],
        None => Seq::empty(),
    } + seq![
        SettingView::GatewayUrl(o.gateway_url@),
        SettingView::Cookie(o.cookie@),
        SettingView::LocalName(o.computer@),
    ] + match given(opt_view(o.hip_script)) {
        Some(h) => seq![SettingView::HipScript(h)],
        None => Seq::empty(),
    }
}

/// The calls that configure libopenconnect for a tunnel, in order: protocol,
/// reported OS, log level, the optional CA file and client certificate, the
/// gateway, the cookie that stands in for the whole authentication exchange,
/// the host name (which the gateway compares against the login), and the HIP
/// report script. A value no C string can carry fails the configuration.
pub fn configuration(options: &Options) -> (r: Result<Vec<Setting>, String>)
    ensures
        all_c_safe(*options) ==> (r matches Ok(v) && settings_view(v@) == settings_of(*options)),
        !all_c_safe(*options) ==> (r matches Err(m) && m@ == nul_message()),
{
    let mut out: Vec<Setting> = Vec::new();
    proof {
        reveal_strlit("gp");
        assert(c_safe("gp"@)) by {
            if contains("gp"@, seq!['\0']) {
                let i = choose|i: int| crate::text::occurs_at("gp"@, seq!['\0'], i);
                assert("gp"@.subrange(i, i + 1)[0] == "gp"@[i]);
            }
        }
    }
    let protocol = match c_string("gp") {
        Ok(v) => v,
        Err(e) => {
            return Err(e);
        },
    };
    out.push(Setting::Protocol(protocol));
    let os = match c_string(options.reported_os.as_str()) {
        Ok(v) => v,
        Err(e) => {
            return Err(e);
        },
    };
    out.push(Setting::ReportedOs(os));
    out.push(Setting::LogLevel(options.log_level));
    let ghost head = settings_view(out@);
    assert(head =~= seq![
        SettingView::Protocol("gp"@),
        SettingView::ReportedOs(options.reported_os@),
        SettingView::LogLevel(options.log_level),
    ]);
    match non_empty(&options.cafile) {
        Some(path) => {
            match c_string(path.as_str()) {
                Ok(v) => out.push(Setting::CaFile(v)),
                Err(e) => {
                    return Err(e);
                },
            }
        },
        None => {},
    }
    let ghost with_ca = settings_view(out@);
    assert(with_ca =~= head + match given(opt_view(options.cafile)) {
        Some(f) => seq![SettingView::CaFile(f)],
        None => Seq::<SettingView>::empty(),
    });
    match (non_empty(&options.client_cert), non_empty(&options.client_key)) {
        (Some(cert), Some(key)) => {
            let c = match c_string(cert.as_str()) {
                Ok(v) => v,
                Err(e) => {
                    return Err(e);
                },
            };
            let k = match c_string(key.as_str()) {
                Ok(v) => v,
                Err(e) => {
                    return Err(e);
                },
            };
            out.push(Setting::ClientCert(c, k));
        },
        _ => {},
    }
    let ghost with_identity = settings_view(out@);
    assert(with_identity =~= with_ca + match identity_of(*options) {
        Some((c, k)) => seq![SettingView::ClientCert(c, k)],
        None => Seq::<SettingView>::empty(),
    });
    let gateway = match c_string(options.gateway_url.as_str()) {
        Ok(v) => v,
        Err(e) => {
            return Err(e);
        },
    };
    let cookie = match c_string(options.cookie.as_str()) {
        Ok(v) => v,
        Err(e) => {
            return Err(e);
        },
    };
    let computer = match c_string(options.computer.as_str()) {
        Ok(v) => v,
        Err(e) => {
            return Err(e);
        },
    };
    out.push(Setting::GatewayUrl(gateway));
    out.push(Setting::Cookie(cookie));
    out.push(Setting::LocalName(computer));
    let ghost with_session = settings_view(out@);
    assert(with_session =~= with_identity + seq![
        SettingView::GatewayUrl(options.gateway_url@),
        SettingView::Cookie(options.cookie@),
        SettingView::LocalName(options.computer@),
    ]);
    match non_empty(&options.hip_script) {
        Some(wrapper) => {
            match c_string(wrapper.as_str()) {
                Ok(v) => out.push(Setting::HipScript(v)),
                Err(e) => {
                    return Err(e);
                },
            }
        },
        None => {},
    }
    assert(settings_view(out@) =~= with_session + match given(opt_view(options.hip_script)) {
        Some(h) => seq![SettingView::HipScript(h)],
        None => Seq::<SettingView>::empty(),
    });
    Ok(out)
}

/// The vpnc-script locations, joined by `, `.
pub open spec fn joined(v: Seq<Seq<char>>) -> Seq<char>
    decreases v.len(),
{
    if v.len() == 0 {
        Seq::empty()
    } else if v.len() == 1 {
        v[0]
    } else {
        joined(v.drop_last()) + ", "@ + v.last()
    }
}

/// The error when no vpnc-script can be found.
pub open spec fn no_script_message() -> Seq<char> {
    "no vpnc-script found. Install the vpnc-scripts package, or set one in settings. Looked in: "@
        + joined(vpnc_locations())
}

/// The vpnc-script for the tunnel: the one set in settings, or the first one
/// found, or the error that says where it was looked for.
pub fn tunnel_script<F: Fn(&str) -> bool>(configured: &Option<String>, is_executable: F) -> (r: Result<
    String,
    String,
>)
    requires
        forall|p: &str| is_executable.requires((p,)),
    ensures
        match given(opt_view(*configured)) {
            Some(s) => r matches Ok(x) && x@ == s,
            None => match r {
                Ok(x) => exists|i: int|
                    0 <= i < vpnc_locations().len() && #[trigger] vpnc_locations()[i] == x@
                        && accepted(is_executable, x@) && forall|j: int|
                        0 <= j < i ==> refused(is_executable, #[trigger] vpnc_locations()[j]),
                Err(m) => m@ == no_script_message() && forall|i: int|
                    0 <= i < vpnc_locations().len() ==> refused(is_executable, #[trigger] vpnc_locations()[i]),
            },
        },
{
    match non_empty(configured) {
        Some(s) => Ok(s),
        None => match find_vpnc_script(is_executable) {
            Some(p) => {
                assert(accepted(is_executable, p@));
                Ok(String::from_str(p))
            },
            None => {
                let locations = vpnc_script_locations();
                let mut out = chars_of(
                    "no vpnc-script found. Install the vpnc-scripts package, or set one in settings. Looked in: ",
                );
                let ghost prefix = out@;
                let mut i: usize = 0;
                while i < locations.len()
                    invariant
                        i <= locations@.len(),
                        out@ == prefix + joined(paths_view(locations@).take(i as int)),
                    decreases locations@.len() - i,
                {
                    let ghost before = paths_view(locations@).take(i as int);
                    if i > 0 {
                        push_str(&mut out, ", ");
                    }
                    push_str(&mut out, locations[i]);
                    i = i + 1;
                    proof {
                        let now = paths_view(locations@).take(i as int);
                        assert(now.drop_last() =~= before);
                        assert(now.last() == locations@[i - 1]@);
                        if i == 1 {
                            assert(before =~= Seq::<Seq<char>>::empty());
                        }
                    }
                }
                assert(paths_view(locations@).take(i as int) =~= vpnc_locations());
                Err(string_of(&out))
            },
        },
    }
}

/// An `is_executable` that never gives two answers for one path.
pub open spec fn answers_once<F: Fn(&str) -> bool>(is_executable: F) -> bool {
    forall|path: Seq<char>| !(accepted(is_executable, path) && refused(is_executable, path))
}

/// The script found is determined by which locations are executable: when
/// `is_executable` answers each path one way, two results that are each the
/// first accepted location of the same list are the same location. So a
/// location that comes later, or one that was refused, is never the answer.
pub proof fn law_first_location_is_unique<F: Fn(&str) -> bool>(
    paths: Seq<Seq<char>>,
    is_executable: F,
    a: int,
    b: int,
)
    requires
        answers_once(is_executable),
        0 <= a < paths.len(),
        0 <= b < paths.len(),
        accepted(is_executable, paths[a]),
        accepted(is_executable, paths[b]),
        forall|j: int| 0 <= j < a ==> refused(is_executable, #[trigger] paths[j]),
        forall|j: int| 0 <= j < b ==> refused(is_executable, #[trigger] paths[j]),
    ensures
        a == b,
{
    if a < b {
        assert(refused(is_executable, paths[a]));
        assert(!(accepted(is_executable, paths[a]) && refused(is_executable, paths[a])));
    } else if b < a {
        assert(refused(is_executable, paths[b]));
        assert(!(accepted(is_executable, paths[b]) && refused(is_executable, paths[b])));
    }
}

} // verus!
