//! The client identity GlobalProtect servers check before they let us in.
//!
//! openconnect's built-in GlobalProtect support sends `computer=localhost`,
//! `os-version=linux-64` and no `host-id`/`serialno`/`clientgpversion` at all,
//! which PAN-OS deployments that enforce a client version or device identity
//! reject with HTTP 512. Everything here exists to send what a real
//! GlobalProtect client sends.
//!
//! The machine itself (files under `/etc` and `/sys`, the host name) is read by
//! the caller and handed in as [`MachineFacts`].
use vstd::prelude::*;

use crate::digest::{sha256, sha256_digest};
use crate::text::{
    all_hex, all_hex_chars, chars_of, find_chars, find_from, has_prefix, hex_byte, is_hex_digit,
    lemma_find_from, lower, lower_chars, push_chars, push_hex_byte, push_str, same, slice_of,
    starts_with, strip_char, strip_char_chars, string_of, trim, trim_chars,
};

verus! {

#[derive(Debug, Clone, Copy, PartialEq, Eq, Structural)]
pub enum ClientOs {
    Linux,
    Windows,
    Mac,
}

impl Default for ClientOs {
    fn default() -> (r: Self)
        ensures
            r == ClientOs::Linux,
    {
        ClientOs::Linux
    }
}

/// The reported OS a stored setting names; anything unrecognised means Linux.
pub open spec fn parse_os(value: Seq<char>) -> ClientOs {
    let v = lower(trim(value));
    if v == "windows"@ || v == "win"@ {
        ClientOs::Windows
    } else if v == "mac"@ || v == "macos"@ || v == "mac-intel"@ {
        ClientOs::Mac
    } else {
        ClientOs::Linux
    }
}

pub open spec fn os_name(os: ClientOs) -> Seq<char> {
    match os {
        ClientOs::Linux => "Linux"@,
        ClientOs::Windows => "Windows"@,
        ClientOs::Mac => "Mac"@,
    }
}

pub open spec fn openconnect_os_name(os: ClientOs) -> Seq<char> {
    match os {
        ClientOs::Linux => "linux-64"@,
        ClientOs::Windows => "win"@,
        ClientOs::Mac => "mac-intel"@,
    }
}

pub open spec fn client_version_of(os: ClientOs) -> Seq<char> {
    match os {
        ClientOs::Linux => "6.3.3-619"@,
        ClientOs::Windows => "6.3.3-650"@,
        ClientOs::Mac => "6.3.3-915"@,
    }
}

pub open spec fn saml_password_of(os: ClientOs) -> Seq<char> {
    match os {
        ClientOs::Linux => "SAMLPASS"@,
        _ => ""@,
    }
}

/// The `os-version` a real client of that OS sends; Linux names its
/// distribution.
pub open spec fn os_version_of(os: ClientOs, distro: Seq<char>) -> Seq<char> {
    match os {
        ClientOs::Linux => "Linux "@ + distro,
        ClientOs::Windows => "Microsoft Windows 11 Pro , 64-bit"@,
        ClientOs::Mac => "Apple Mac OS X 13.4.0"@,
    }
}

impl ClientOs {
    /// Parses the value stored in settings; anything unrecognised means Linux.
    pub fn parse(value: &str) -> (r: ClientOs)
        ensures
            r == parse_os(value@),
    {
        let v = lower_chars(&trim_chars(&chars_of(value)));
        if same(&v, &chars_of("windows")) || same(&v, &chars_of("win")) {
            ClientOs::Windows
        } else if same(&v, &chars_of("mac")) || same(&v, &chars_of("macos")) || same(
            &v,
            &chars_of("mac-intel"),
        ) {
            ClientOs::Mac
        } else {
            ClientOs::Linux
        }
    }

    /// The `clientos` form value.
    pub fn as_str(self) -> (r: &'static str)
        ensures
            r@ == os_name(self),
    {
        match self {
            ClientOs::Linux => "Linux",
            ClientOs::Windows => "Windows",
            ClientOs::Mac => "Mac",
        }
    }

    /// The matching `openconnect_set_reported_os()` value; the library rejects
    /// anything outside its own allow-list.
    pub fn openconnect_os(self) -> (r: &'static str)
        ensures
            r@ == openconnect_os_name(self),
    {
        match self {
            ClientOs::Linux => "linux-64",
            ClientOs::Windows => "win",
            ClientOs::Mac => "mac-intel",
        }
    }

    /// The GlobalProtect client version a real client of this OS reports.
    pub fn client_version(self) -> (r: &'static str)
        ensures
            r@ == client_version_of(self),
    {
        match self {
            ClientOs::Linux => "6.3.3-619",
            ClientOs::Windows => "6.3.3-650",
            ClientOs::Mac => "6.3.3-915",
        }
    }

    /// Placeholder password a SAML/cookie login sends in the `passwd` field.
    pub fn saml_password(self) -> (r: &'static str)
        ensures
            r@ == saml_password_of(self),
    {
        match self {
            ClientOs::Linux => "SAMLPASS",
            ClientOs::Windows | ClientOs::Mac => "",
        }
    }

    /// Whether `csc-support=yes` is advertised on the portal config request.
    pub fn csc_support(self) -> (r: bool)
        ensures
            r == (self != ClientOs::Linux),
    {
        !matches!(self, ClientOs::Linux)
    }

    /// Windows clients send the prelogin parameters as a query string; the
    /// others send them as a form body.
    pub fn prelogin_params_in_query(self) -> (r: bool)
        ensures
            r == (self == ClientOs::Windows),
    {
        matches!(self, ClientOs::Windows)
    }

    pub fn kerberos_support_in_query(self) -> (r: bool)
        ensures
            r == (self == ClientOs::Windows || self == ClientOs::Mac),
    {
        matches!(self, ClientOs::Windows | ClientOs::Mac)
    }

    /// The `os-version` a real client of this OS sends, naming `distro` when
    /// it is Linux.
    pub fn os_version(self, distro: &[char]) -> (r: String)
        ensures
            r@ == os_version_of(self, distro@),
    {
        match self {
            ClientOs::Linux => {
                let mut out = chars_of("Linux ");
                push_chars(&mut out, distro);
                string_of(&out)
            },
            ClientOs::Windows => String::from_str("Microsoft Windows 11 Pro , 64-bit"),
            ClientOs::Mac => String::from_str("Apple Mac OS X 13.4.0"),
        }
    }
}

/// Reading back a reported OS's own name, or the name openconnect knows it
/// by, gives that OS.
pub proof fn law_client_os_round_trip(os: ClientOs)
    ensures
        parse_os(os_name(os)) == os,
        parse_os(openconnect_os_name(os)) == os,
{
    law_openconnect_name_round_trip(os);
    reveal_strlit("Linux");
    reveal_strlit("Windows");
    reveal_strlit("Mac");
    reveal_strlit("linux");
    reveal_strlit("windows");
    reveal_strlit("win");
    reveal_strlit("mac");
    reveal_strlit("macos");
    reveal_strlit("mac-intel");
    let n = os_name(os);
    assert(trim(n) == n) by {
        assert(n.len() > 0 && !crate::text::is_space(n[0]));
        assert(!crate::text::is_space(n.last()));
    }
    assert("linux"@.len() == 5 && "windows"@.len() == 7 && "win"@.len() == 3);
    assert("mac"@.len() == 3 && "macos"@.len() == 5 && "mac-intel"@.len() == 9);
    assert("linux"@[0] != "macos"@[0]);
    assert("mac"@[0] != "win"@[0]);
    match os {
        ClientOs::Linux => {
            assert(lower(n) =~= "linux"@);
        },
        ClientOs::Windows => {
            assert(lower(n) =~= "windows"@);
        },
        ClientOs::Mac => {
            assert(lower(n) =~= "mac"@);
        },
    }
}

proof fn law_openconnect_name_round_trip(os: ClientOs)
    ensures
        parse_os(openconnect_os_name(os)) == os,
{
    reveal_strlit("linux-64");
    reveal_strlit("windows");
    reveal_strlit("win");
    reveal_strlit("mac");
    reveal_strlit("macos");
    reveal_strlit("mac-intel");
    let n = openconnect_os_name(os);
    assert(trim(n) == n) by {
        assert(n.len() > 0 && !crate::text::is_space(n[0]));
        assert(!crate::text::is_space(n.last()));
    }
    assert(lower(n) =~= n);
    assert("linux-64"@.len() == 8 && "windows"@.len() == 7 && "win"@.len() == 3);
    assert("mac"@.len() == 3 && "macos"@.len() == 5 && "mac-intel"@.len() == 9);
    assert("linux-64"@[0] != "mac-intel"@[0]);
    assert("linux-64"@[0] != "windows"@[0]);
    assert("mac"@[0] != "win"@[0]);
}

/// Everything a GlobalProtect request needs to describe "this machine".
#[derive(Debug)]
pub struct Profile {
    pub client_os: ClientOs,
    pub os_version: String,
    pub client_version: String,
    pub computer: String,
    pub host_id: String,
    pub serialno: String,
    pub user_agent: String,
}

/// A `Profile` as plain values.
pub struct ProfileView {
    pub client_os: ClientOs,
    pub os_version: Seq<char>,
    pub client_version: Seq<char>,
    pub computer: Seq<char>,
    pub host_id: Seq<char>,
    pub serialno: Seq<char>,
    pub user_agent: Seq<char>,
}

impl View for Profile {
    type V = ProfileView;

    open spec fn view(&self) -> ProfileView {
        ProfileView {
            client_os: self.client_os,
            os_version: self.os_version@,
            client_version: self.client_version@,
            computer: self.computer@,
            host_id: self.host_id@,
            serialno: self.serialno@,
            user_agent: self.user_agent@,
        }
    }
}

impl Clone for Profile {
    fn clone(&self) -> (r: Self)
        ensures
            r@ == self@,
    {
        Profile {
            client_os: self.client_os,
            os_version: self.os_version.clone(),
            client_version: self.client_version.clone(),
            computer: self.computer.clone(),
            host_id: self.host_id.clone(),
            serialno: self.serialno.clone(),
            user_agent: self.user_agent.clone(),
        }
    }
}

/// What the running machine says about itself. Each file is its contents, or
/// `None` when it could not be read; `hostname` is what `gethostname` returned,
/// or `None` when the call failed.
pub struct MachineFacts {
    /// `/etc/os-release`.
    pub os_release: Option<String>,
    pub hostname: Option<String>,
    /// `/etc/hostname`.
    pub etc_hostname: Option<String>,
    /// `/sys/class/dmi/id/product_uuid`.
    pub product_uuid: Option<String>,
    /// `/etc/machine-id`.
    pub machine_id: Option<String>,
    /// `/sys/class/dmi/id/product_serial`.
    pub product_serial: Option<String>,
}

impl MachineFacts {
    /// A machine that reveals nothing about itself.
    pub fn unknown() -> (r: MachineFacts)
        ensures
            r.os_release is None,
            r.hostname is None,
            r.etc_hostname is None,
            r.product_uuid is None,
            r.machine_id is None,
            r.product_serial is None,
    {
        MachineFacts {
            os_release: None,
            hostname: None,
            etc_hostname: None,
            product_uuid: None,
            machine_id: None,
            product_serial: None,
        }
    }
}

pub open spec fn opt_view(o: Option<String>) -> Option<Seq<char>> {
    match o {
        Some(s) => Some(s@),
        None => None,
    }
}

/// The line of `s` that starts at `from`: up to the next `\n`, without the
/// `\r` that may precede it.
pub open spec fn line_end(s: Seq<char>, from: int) -> Option<int> {
    find_from(s, seq!['\n'], from)
}

/// `str::lines`: split at `\n` or `\r\n`; a final line ending is optional.
pub open spec fn lines(s: Seq<char>) -> Seq<Seq<char>>
    decreases s.len(),
{
    if s.len() == 0 {
        Seq::empty()
    } else {
        match find_from(s, seq!['\n'], 0) {
            Some(i) => if 0 <= i < s.len() {
                let line = s.take(i);
                let line = if line.len() > 0 && line.last() == '\r' {
                    line.drop_last()
                } else {
                    line
                };
                seq![line] + lines(s.skip(i + 1))
            } else {
                seq![s]
            },
            None => seq![s],
        }
    }
}

/// The first line of `ls` that starts with `p`.
pub open spec fn first_with_prefix(ls: Seq<Seq<char>>, p: Seq<char>) -> Option<Seq<char>>
    decreases ls.len(),
{
    if ls.len() == 0 {
        None
    } else if has_prefix(ls[0], p) {
        Some(ls[0])
    } else {
        first_with_prefix(ls.drop_first(), p)
    }
}

/// The distribution named by `PRETTY_NAME` in `/etc/os-release`, or Ubuntu's
/// current release when the file says nothing usable.
pub open spec fn distro_of(os_release: Option<Seq<char>>) -> Seq<char> {
    match os_release {
        None => "Ubuntu 24.04.3 LTS"@,
        Some(contents) => match first_with_prefix(lines(contents), "PRETTY_NAME="@) {
            None => "Ubuntu 24.04.3 LTS"@,
            Some(line) => {
                let value = strip_char(line.skip(12), '"');
                if value.len() > 0 {
                    value
                } else {
                    "Ubuntu 24.04.3 LTS"@
                }
            },
        },
    }
}

/// The next line of `v` from `at`: its contents and where the one after it
/// starts.
fn next_line(v: &[char], at: usize) -> (r: (Vec<char>, usize))
    requires
        at < v@.len(),
    ensures
        r.1 > at,
        r.1 <= v@.len(),
        lines(v@.skip(at as int)) == seq![r.0@] + lines(v@.skip(r.1 as int)),
{
    let s = slice_of(v, at, v.len());
    let ghost g = v@.skip(at as int);
    assert(s@ == g);
    proof {
        lemma_find_from(g, seq!['\n'], 0);
    }
    let nl = vec!['\n'];
    match find_chars(&s, &nl, 0) {
        Some(i) => {
            assert(nl@ == seq!['\n']);
            let mut line = slice_of(&s, 0, i);
            assert(g.take(i as int) == g.subrange(0, i as int));
            if line.len() > 0 && line[line.len() - 1] == '\r' {
                line.pop();
            }
            assert(g.skip(i + 1) == v@.skip(at + i + 1));
            (line, at + i + 1)
        },
        None => {
            assert(nl@ == seq!['\n']);
            assert(v@.skip(v@.len() as int) =~= Seq::<char>::empty());
            (s, v.len())
        },
    }
}

/// The distribution named by `PRETTY_NAME` in `/etc/os-release`.
pub fn linux_distro(os_release: Option<&str>) -> (r: Vec<char>)
    ensures
        r@ == distro_of(
            match os_release {
                Some(s) => Some(s@),
                None => None,
            },
        ),
{
    let default = chars_of("Ubuntu 24.04.3 LTS");
    let contents = match os_release {
        Some(c) => chars_of(c),
        None => {
            return default;
        },
    };
    let key = chars_of("PRETTY_NAME=");
    proof {
        reveal_strlit("PRETTY_NAME=");
    }
    let mut at: usize = 0;
    assert(contents@.skip(0) == contents@);
    while at < contents.len()
        invariant
            at <= contents@.len(),
            key@ == "PRETTY_NAME="@,
            default@ == "Ubuntu 24.04.3 LTS"@,
            os_release matches Some(c) && contents@ == c@,
            first_with_prefix(lines(contents@), "PRETTY_NAME="@) == first_with_prefix(
                lines(contents@.skip(at as int)),
                "PRETTY_NAME="@,
            ),
        decreases contents@.len() - at,
    {
        let (line, next) = next_line(&contents, at);
        proof {
            reveal_strlit("PRETTY_NAME=");
            let ls = lines(contents@.skip(at as int));
            assert(ls[0] == line@);
            assert(ls.drop_first() == lines(contents@.skip(next as int)));
        }
        if starts_with(&line, &key) {
            let value = strip_char_chars(&slice_of(&line, 12, line.len()), '"');
            assert(line@.subrange(12, line@.len() as int) == line@.skip(12));
            if value.len() > 0 {
                return value;
            } else {
                return default;
            }
        }
        at = next;
    }
    assert(contents@.skip(at as int) =~= Seq::<char>::empty());
    default
}

/// A file's contents trimmed, unless nothing is left.
pub open spec fn trimmed_value(contents: Option<Seq<char>>) -> Option<Seq<char>> {
    match contents {
        Some(c) => if trim(c).len() > 0 {
            Some(trim(c))
        } else {
            None
        },
        None => None,
    }
}

/// A file's contents trimmed, unless nothing is left.
pub fn read_trimmed(contents: &Option<String>) -> (r: Option<Vec<char>>)
    ensures
        match r {
            Some(v) => trimmed_value(opt_view(*contents)) == Some(v@),
            None => trimmed_value(opt_view(*contents)) is None,
        },
{
    match contents {
        Some(c) => {
            let t = trim_chars(&chars_of(c.as_str()));
            if t.len() > 0 {
                Some(t)
            } else {
                None
            }
        },
        None => None,
    }
}

/// The machine's name: what `gethostname` returned, else `/etc/hostname`,
/// else `localhost`.
pub open spec fn hostname_of(hostname: Option<Seq<char>>, etc_hostname: Option<Seq<char>>) -> Seq<
    char,
> {
    match hostname {
        Some(h) if h.len() > 0 => h,
        _ => match trimmed_value(etc_hostname) {
            Some(h) => h,
            None => "localhost"@,
        },
    }
}

/// The machine's name.
pub fn hostname(facts: &MachineFacts) -> (r: Vec<char>)
    ensures
        r@ == hostname_of(opt_view(facts.hostname), opt_view(facts.etc_hostname)),
{
    match &facts.hostname {
        Some(h) => {
            let v = chars_of(h.as_str());
            if v.len() > 0 {
                return v;
            }
        },
        None => {},
    }
    match read_trimmed(&facts.etc_hostname) {
        Some(v) => v,
        None => chars_of("localhost"),
    }
}

/// The shape of a UUID: 36 characters, dashes at 8, 13, 18 and 23, hex
/// digits elsewhere.
pub open spec fn uuid_shape(v: Seq<char>) -> bool {
    &&& v.len() == 36
    &&& forall|i: int|
        0 <= i < 36 ==> if i == 8 || i == 13 || i == 18 || i == 23 {
            #[trigger] v[i] == '-'
        } else {
            is_hex_digit(v[i])
        }
}

/// A UUID in canonical lower case, if `value` is one.
pub open spec fn normalized_uuid(value: Seq<char>) -> Option<Seq<char>> {
    let v = lower(trim(value));
    if uuid_shape(v) {
        Some(v)
    } else {
        None
    }
}

/// Whether `v` has the shape of a UUID.
fn is_uuid_shaped(v: &[char]) -> (r: bool)
    ensures
        r == uuid_shape(v@),
{
    if v.len() != 36 {
        return false;
    }
    let mut i: usize = 0;
    while i < 36
        invariant
            v@.len() == 36,
            i <= 36,
            forall|k: int|
                0 <= k < i ==> if k == 8 || k == 13 || k == 18 || k == 23 {
                    #[trigger] v@[k] == '-'
                } else {
                    is_hex_digit(v@[k])
                },
        decreases 36 - i,
    {
        if i == 8 || i == 13 || i == 18 || i == 23 {
            if v[i] != '-' {
                return false;
            }
        } else if !crate::text::is_hex_char(v[i]) {
            return false;
        }
        i = i + 1;
    }
    true
}

/// A UUID in canonical lower case, if `value` is one.
pub fn normalize_uuid(value: &str) -> (r: Option<String>)
    ensures
        opt_view(r) == normalized_uuid(value@),
{
    let v = lower_chars(&trim_chars(&chars_of(value)));
    if is_uuid_shaped(&v) {
        Some(string_of(&v))
    } else {
        None
    }
}

/// 32 hex digits grouped 8-4-4-4-12.
pub open spec fn dashed(v: Seq<char>) -> Seq<char> {
    v.subrange(0, 8) + "-"@ + v.subrange(8, 12) + "-"@ + v.subrange(12, 16) + "-"@ + v.subrange(
        16,
        20,
    ) + "-"@ + v.subrange(20, 32)
}

/// The UUID a 32-digit hex machine id spells, if `value` is one.
pub open spec fn uuid_of_hex(value: Seq<char>) -> Option<Seq<char>> {
    let v = lower(trim(value));
    if v.len() == 32 && all_hex(v) {
        Some(dashed(v))
    } else {
        None
    }
}

/// Groups 32 hex digits 8-4-4-4-12.
fn dash(v: &[char]) -> (r: Vec<char>)
    requires
        v@.len() == 32,
    ensures
        r@ == dashed(v@),
{
    let mut out = slice_of(v, 0, 8);
    push_str(&mut out, "-");
    push_chars(&mut out, &slice_of(v, 8, 12));
    push_str(&mut out, "-");
    push_chars(&mut out, &slice_of(v, 12, 16));
    push_str(&mut out, "-");
    push_chars(&mut out, &slice_of(v, 16, 20));
    push_str(&mut out, "-");
    push_chars(&mut out, &slice_of(v, 20, 32));
    out
}

/// The UUID a 32-digit hex machine id spells.
pub fn uuid_from_hex(value: &str) -> (r: Option<String>)
    ensures
        opt_view(r) == uuid_of_hex(value@),
{
    let v = lower_chars(&trim_chars(&chars_of(value)));
    if v.len() == 32 && all_hex_chars(&v) {
        Some(string_of(&dash(&v)))
    } else {
        None
    }
}

/// The first `n` bytes of `d` in lower-case hex.
pub open spec fn hex_of(d: Seq<u8>, n: int) -> Seq<char>
    decreases n,
{
    if n <= 0 {
        Seq::empty()
    } else {
        hex_of(d, n - 1) + hex_byte(d[n - 1])
    }
}

/// Every character of `hex_of` is a lower-case hex digit, two per byte.
proof fn lemma_hex_of(d: Seq<u8>, n: int)
    requires
        0 <= n,
    ensures
        hex_of(d, n).len() == 2 * n,
        all_hex(hex_of(d, n)),
        lower(hex_of(d, n)) == hex_of(d, n),
    decreases n,
{
    if n > 0 {
        lemma_hex_of(d, n - 1);
        let a = hex_of(d, n - 1);
        let b = hex_byte(d[n - 1]);
        assert(forall|i: int| 0 <= i < b.len() ==> is_hex_digit(#[trigger] b[i]) && crate::text::lower_char(b[i]) == b[i]);
        assert(all_hex(a + b));
        assert(lower(a + b) =~= lower(a) + lower(b));
        assert(lower(b) =~= b);
    }
}

/// Deterministic UUID-shaped identifier for machines without usable DMI data:
/// the first 16 bytes of the SHA-256 of `seed`, as a UUID.
pub open spec fn derived_uuid(seed: Seq<char>) -> Seq<char> {
    dashed(hex_of(sha256_digest(vstd::utf8::encode_utf8(seed)), 16))
}

/// Deterministic UUID-shaped identifier for machines without usable DMI data.
pub fn derive_uuid(seed: &str) -> (r: String)
    ensures
        r@ == derived_uuid(seed@),
{
    let digest = sha256(seed.as_bytes());
    let mut hex: Vec<char> = Vec::new();
    let mut i: usize = 0;
    while i < 16
        invariant
            digest@.len() == 32,
            i <= 16,
            hex@ == hex_of(digest@, i as int),
        decreases 16 - i,
    {
        push_hex_byte(&mut hex, digest[i]);
        i = i + 1;
    }
    proof {
        lemma_hex_of(digest@, 16);
    }
    string_of(&dash(&hex))
}

/// `value` in pairs of characters, the pairs in reverse order: the byte swap
/// SMBIOS applies to the first three UUID groups.
pub open spec fn reversed_pairs(value: Seq<char>) -> Seq<char>
    decreases value.len(),
{
    if value.len() <= 2 {
        value
    } else {
        reversed_pairs(value.skip(2)) + value.take(2)
    }
}

/// `value` in pairs of characters, the pairs in reverse order.
fn reverse_hex_bytes(value: &[char]) -> (r: Vec<char>)
    ensures
        r@ == reversed_pairs(value@),
    decreases value@.len(),
{
    if value.len() <= 2 {
        return slice_of(value, 0, value.len());
    }
    let rest = slice_of(value, 2, value.len());
    assert(rest@ == value@.skip(2));
    let mut out = reverse_hex_bytes(&rest);
    push_chars(&mut out, &slice_of(value, 0, 2));
    assert(value@.subrange(0, 2) == value@.take(2));
    out
}

/// The 32 hex digits of a UUID in the byte order a VMware guest reports.
pub open spec fn vmware_compact(u: Seq<char>) -> Seq<char> {
    reversed_pairs(u.subrange(0, 8)) + reversed_pairs(u.subrange(9, 13)) + reversed_pairs(
        u.subrange(14, 18),
    ) + u.subrange(19, 23) + u.subrange(24, 36)
}

/// `c` as eight space-separated pairs of characters, from `from`.
pub open spec fn spaced_pairs(c: Seq<char>, from: int) -> Seq<char> {
    c.subrange(from, from + 2) + " "@ + c.subrange(from + 2, from + 4) + " "@ + c.subrange(
        from + 4,
        from + 6,
    ) + " "@ + c.subrange(from + 6, from + 8) + " "@ + c.subrange(from + 8, from + 10) + " "@
        + c.subrange(from + 10, from + 12) + " "@ + c.subrange(from + 12, from + 14) + " "@
        + c.subrange(from + 14, from + 16)
}

/// The serial a VMware guest reports for a given UUID.
pub open spec fn vmware_serial(uuid: Seq<char>) -> Option<Seq<char>> {
    match normalized_uuid(uuid) {
        None => None,
        Some(u) => {
            let c = vmware_compact(u);
            Some("VMware-"@ + spaced_pairs(c, 0) + "-"@ + spaced_pairs(c, 16))
        },
    }
}

/// `reversed_pairs` keeps the length.
proof fn lemma_reversed_pairs_len(v: Seq<char>)
    ensures
        reversed_pairs(v).len() == v.len(),
    decreases v.len(),
{
    if v.len() > 2 {
        lemma_reversed_pairs_len(v.skip(2));
    }
}

/// Appends eight pairs of `c`, from `from`, separated by spaces.
fn push_spaced_pairs(out: &mut Vec<char>, c: &[char], from: usize)
    requires
        from + 16 <= c@.len(),
    ensures
        final(out)@ == old(out)@ + spaced_pairs(c@, from as int),
{
    let mut k: usize = 0;
    let ghost start = out@;
    while k < 8
        invariant
            k <= 8,
            from + 16 <= c@.len(),
            from + 16 <= c.len(),
            out@ == start + if k == 0 {
                Seq::<char>::empty()
            } else {
                spaced_prefix(c@, from as int, k as int)
            },
        decreases 8 - k,
    {
        if k > 0 {
            push_str(out, " ");
        }
        push_chars(out, &slice_of(c, from + 2 * k, from + 2 * k + 2));
        proof {
            if k == 0 {
                assert(spaced_prefix(c@, from as int, 1) == c@.subrange(from as int, from + 2));
            }
        }
        k = k + 1;
    }
    proof {
        reveal_with_fuel(spaced_prefix, 9);
        assert(spaced_prefix(c@, from as int, 8) =~= spaced_pairs(c@, from as int));
    }
}

/// The first `k` pairs of `c` from `from`, separated by spaces.
pub open spec fn spaced_prefix(c: Seq<char>, from: int, k: int) -> Seq<char>
    decreases k,
{
    if k <= 1 {
        c.subrange(from, from + 2)
    } else {
        spaced_prefix(c, from, k - 1) + " "@ + c.subrange(from + 2 * (k - 1), from + 2 * k)
    }
}

/// Reproduces the SMBIOS byte order a VMware guest reports as its serial, which
/// is the shape GlobalProtect clients send when no DMI serial is readable.
pub fn vmware_serial_from_uuid(uuid: &str) -> (r: Option<String>)
    ensures
        opt_view(r) == vmware_serial(uuid@),
{
    let normalized = match normalize_uuid(uuid) {
        Some(n) => chars_of(n.as_str()),
        None => {
            return None;
        },
    };
    let mut compact = reverse_hex_bytes(&slice_of(&normalized, 0, 8));
    push_chars(&mut compact, &reverse_hex_bytes(&slice_of(&normalized, 9, 13)));
    push_chars(&mut compact, &reverse_hex_bytes(&slice_of(&normalized, 14, 18)));
    push_chars(&mut compact, &slice_of(&normalized, 19, 23));
    push_chars(&mut compact, &slice_of(&normalized, 24, 36));
    proof {
        let u = normalized@;
        lemma_reversed_pairs_len(u.subrange(0, 8));
        lemma_reversed_pairs_len(u.subrange(9, 13));
        lemma_reversed_pairs_len(u.subrange(14, 18));
        assert(compact@ == vmware_compact(u));
    }
    let mut out = chars_of("VMware-");
    push_spaced_pairs(&mut out, &compact, 0);
    push_str(&mut out, "-");
    push_spaced_pairs(&mut out, &compact, 16);
    Some(string_of(&out))
}

/// The machine UUID a GlobalProtect client reports as `host-id`: the DMI
/// product UUID, else the machine id as a UUID, else one derived from the
/// host name.
pub open spec fn host_id_of(
    product_uuid: Option<Seq<char>>,
    machine_id: Option<Seq<char>>,
    host: Seq<char>,
) -> Seq<char> {
    match trimmed_value(product_uuid) {
        Some(v) if normalized_uuid(v) is Some => normalized_uuid(v)->0,
        _ => match trimmed_value(machine_id) {
            Some(v) if uuid_of_hex(v) is Some => uuid_of_hex(v)->0,
            _ => derived_uuid("gp-auth-host-id:"@ + host),
        },
    }
}

/// The machine UUID a GlobalProtect client reports as `host-id`.
pub fn host_id(facts: &MachineFacts) -> (r: String)
    ensures
        r@ == host_id_of(
            opt_view(facts.product_uuid),
            opt_view(facts.machine_id),
            hostname_of(opt_view(facts.hostname), opt_view(facts.etc_hostname)),
        ),
{
    match read_trimmed(&facts.product_uuid) {
        Some(v) => match normalize_uuid(string_of(&v).as_str()) {
            Some(u) => {
                return u;
            },
            None => {},
        },
        None => {},
    }
    match read_trimmed(&facts.machine_id) {
        Some(v) => match uuid_from_hex(string_of(&v).as_str()) {
            Some(u) => {
                return u;
            },
            None => {},
        },
        None => {},
    }
    let mut seed = chars_of("gp-auth-host-id:");
    push_chars(&mut seed, &hostname(facts));
    derive_uuid(string_of(&seed).as_str())
}

/// The serial a GlobalProtect client reports: the DMI serial unless it is
/// missing or `None`, else the VMware-style serial of `host_id`, else
/// `host_id` itself.
pub open spec fn serialno_of(product_serial: Option<Seq<char>>, host_id: Seq<char>) -> Seq<char> {
    match trimmed_value(product_serial) {
        Some(v) if v != "None"@ => v,
        _ => match vmware_serial(host_id) {
            Some(s) => s,
            None => host_id,
        },
    }
}

/// The serial a GlobalProtect client reports.
pub fn serialno(facts: &MachineFacts, host_id: &str) -> (r: String)
    ensures
        r@ == serialno_of(opt_view(facts.product_serial), host_id@),
{
    match read_trimmed(&facts.product_serial) {
        Some(v) => {
            if !same(&v, &chars_of("None")) {
                return string_of(&v);
            }
        },
        None => {},
    }
    match vmware_serial_from_uuid(host_id) {
        Some(s) => s,
        None => String::from_str(host_id),
    }
}

/// The profile a machine with these facts presents when reporting `os`.
pub open spec fn detected(os: ClientOs, f: MachineFacts) -> ProfileView {
    let host = hostname_of(opt_view(f.hostname), opt_view(f.etc_hostname));
    let host_id = host_id_of(opt_view(f.product_uuid), opt_view(f.machine_id), host);
    let os_version = os_version_of(os, distro_of(opt_view(f.os_release)));
    ProfileView {
        client_os: os,
        os_version: os_version,
        client_version: client_version_of(os),
        computer: host,
        host_id: host_id,
        serialno: serialno_of(opt_view(f.product_serial), host_id),
        user_agent: "PAN GlobalProtect/"@ + client_version_of(os) + " ("@ + os_version + ")"@,
    }
}

impl Profile {
    /// Builds a profile from what the machine says about itself, reporting
    /// `client_os`.
    ///
    /// Spoofing a different OS only changes the advertised strings; the machine
    /// identifiers stay real so the server sees a stable device.
    pub fn detect(client_os: ClientOs, facts: &MachineFacts) -> (r: Profile)
        ensures
            r@ == detected(client_os, *facts),
    {
        let distro = match &facts.os_release {
            Some(c) => linux_distro(Some(c.as_str())),
            None => linux_distro(None),
        };
        let os_version = client_os.os_version(&distro);
        let client_version = String::from_str(client_os.client_version());
        let host_id = host_id(facts);
        let mut agent = chars_of("PAN GlobalProtect/");
        push_str(&mut agent, client_version.as_str());
        push_str(&mut agent, " (");
        push_str(&mut agent, os_version.as_str());
        push_str(&mut agent, ")");
        Profile {
            user_agent: string_of(&agent),
            serialno: serialno(facts, host_id.as_str()),
            host_id,
            computer: string_of(&hostname(facts)),
            os_version,
            client_version,
            client_os,
        }
    }
}

/// Lower-casing twice changes nothing more.
proof fn lemma_lower_twice(s: Seq<char>)
    ensures
        lower(lower(s)) == lower(s),
{
    assert(lower(lower(s)) =~= lower(s));
}

/// 32 lower-case hex digits grouped 8-4-4-4-12 have the shape of a UUID and
/// stay lower case.
proof fn lemma_dashed(v: Seq<char>)
    requires
        v.len() == 32,
        all_hex(v),
        lower(v) == v,
    ensures
        uuid_shape(dashed(v)),
        lower(dashed(v)) == dashed(v),
{
    reveal_strlit("-");
    let d = dashed(v);
    assert(d.len() == 36);
    assert forall|i: int| 0 <= i < 36 implies if i == 8 || i == 13 || i == 18 || i == 23 {
        #[trigger] d[i] == '-'
    } else {
        is_hex_digit(d[i])
    } by {
        if i < 8 {
            assert(d[i] == v[i]);
        } else if 8 < i < 13 {
            assert(d[i] == v[i - 1]);
        } else if 13 < i < 18 {
            assert(d[i] == v[i - 2]);
        } else if 18 < i < 23 {
            assert(d[i] == v[i - 3]);
        } else if 23 < i {
            assert(d[i] == v[i - 4]);
        }
    }
    assert forall|i: int| 0 <= i < 36 implies #[trigger] lower(d)[i] == d[i] by {
        if i < 8 {
            assert(d[i] == v[i] && lower(v)[i] == v[i]);
        } else if 8 < i < 13 {
            assert(d[i] == v[i - 1] && lower(v)[i - 1] == v[i - 1]);
        } else if 13 < i < 18 {
            assert(d[i] == v[i - 2] && lower(v)[i - 2] == v[i - 2]);
        } else if 18 < i < 23 {
            assert(d[i] == v[i - 3] && lower(v)[i - 3] == v[i - 3]);
        } else if 23 < i {
            assert(d[i] == v[i - 4] && lower(v)[i - 4] == v[i - 4]);
        }
    }
    assert(lower(d) =~= d);
}

/// Whatever the machine says about itself, the `host-id` it reports is a
/// UUID in lower case.
pub proof fn law_host_id_is_a_lower_case_uuid(
    product_uuid: Option<Seq<char>>,
    machine_id: Option<Seq<char>>,
    host: Seq<char>,
)
    ensures
        uuid_shape(host_id_of(product_uuid, machine_id, host)),
        lower(host_id_of(product_uuid, machine_id, host)) == host_id_of(
            product_uuid,
            machine_id,
            host,
        ),
{
    match trimmed_value(product_uuid) {
        Some(v) if normalized_uuid(v) is Some => {
            lemma_lower_twice(trim(v));
            return;
        },
        _ => {},
    }
    match trimmed_value(machine_id) {
        Some(v) if uuid_of_hex(v) is Some => {
            lemma_lower_twice(trim(v));
            lemma_dashed(lower(trim(v)));
            return;
        },
        _ => {},
    }
    let digest = sha256_digest(vstd::utf8::encode_utf8("gp-auth-host-id:"@ + host));
    lemma_hex_of(digest, 16);
    lemma_dashed(hex_of(digest, 16));
}

/// Reporting another OS changes only what is advertised: the machine's
/// identifiers stay those of the machine, the reported OS is the one asked
/// for, its client version is that OS's, and the user agent names both. The
/// machine always has a name, and its `host-id` is a lower-case UUID.
pub proof fn law_detect_keeps_the_machine(a: ClientOs, b: ClientOs, f: MachineFacts)
    ensures
        detected(a, f).host_id == detected(b, f).host_id,
        detected(a, f).serialno == detected(b, f).serialno,
        detected(a, f).computer == detected(b, f).computer,
        detected(a, f).client_os == a,
        detected(a, f).client_version == client_version_of(a),
        detected(a, f).user_agent == "PAN GlobalProtect/"@ + detected(a, f).client_version + " ("@
            + detected(a, f).os_version + ")"@,
        detected(a, f).computer.len() > 0,
        uuid_shape(detected(a, f).host_id),
        lower(detected(a, f).host_id) == detected(a, f).host_id,
{
    reveal_strlit("localhost");
    let host = hostname_of(opt_view(f.hostname), opt_view(f.etc_hostname));
    law_host_id_is_a_lower_case_uuid(opt_view(f.product_uuid), opt_view(f.machine_id), host);
}

} // verus!
