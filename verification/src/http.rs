//! Form parameters, and the base URL every request is made against.
use vstd::prelude::*;

use crate::error::{Error, ErrorView};
use crate::text::{
    chars_of, contains, contains_chars, push_chars, push_str, same, strip_prefixes,
    strip_prefixes_chars, strip_suffix_char, strip_suffix_char_chars, string_of, trim,
    trim_chars, decimal, decimal_chars,
};

verus! {

/// Form parameters, ordered the way a real client sends them.
pub type Params = Vec<(String, String)>;

/// Parameters as plain values.
pub open spec fn pairs(p: Seq<(String, String)>) -> Seq<(Seq<char>, Seq<char>)> {
    p.map_values(|e: (String, String)| (e.0@, e.1@))
}

/// The position of the first parameter named `key`.
pub open spec fn key_index(p: Seq<(Seq<char>, Seq<char>)>, key: Seq<char>) -> Option<int>
    decreases p.len(),
{
    if p.len() == 0 {
        None
    } else if p.last().0 == key && key_index(p.drop_last(), key) is None {
        Some(p.len() - 1)
    } else {
        key_index(p.drop_last(), key)
    }
}

/// The value of the first parameter named `key`, as a reader of the form
/// sees it.
pub open spec fn lookup(p: Seq<(Seq<char>, Seq<char>)>, key: Seq<char>) -> Option<Seq<char>> {
    match key_index(p, key) {
        Some(i) => Some(p[i].1),
        None => None,
    }
}

/// How many parameters are named `key`.
pub open spec fn key_count(p: Seq<(Seq<char>, Seq<char>)>, key: Seq<char>) -> nat
    decreases p.len(),
{
    if p.len() == 0 {
        0
    } else {
        key_count(p.drop_last(), key) + if p.last().0 == key { 1nat } else { 0nat }
    }
}

/// `key_index` finds the first match and nothing before it.
pub proof fn lemma_key_index(p: Seq<(Seq<char>, Seq<char>)>, key: Seq<char>)
    ensures
        key_index(p, key) matches Some(i) ==> 0 <= i < p.len() && p[i].0 == key && forall|k: int|
            0 <= k < i ==> p[k].0 != key,
        key_index(p, key) is None ==> forall|k: int| 0 <= k < p.len() ==> p[k].0 != key,
    decreases p.len(),
{
    if p.len() > 0 {
        let q = p.drop_last();
        lemma_key_index(q, key);
        assert forall|k: int| 0 <= k < q.len() implies q[k] == p[k] by {}
    }
}

/// Where a name first stands in a concatenation: in the first part if it is
/// there, else in the second, after the first part.
pub proof fn lemma_key_index_concat(
    a: Seq<(Seq<char>, Seq<char>)>,
    b: Seq<(Seq<char>, Seq<char>)>,
    key: Seq<char>,
)
    ensures
        key_index(a + b, key) == match key_index(a, key) {
            Some(i) => Some(i),
            None => match key_index(b, key) {
                Some(j) => Some(j + a.len()),
                None => None,
            },
        },
        lookup(a + b, key) == match lookup(a, key) {
            Some(v) => Some(v),
            None => lookup(b, key),
        },
    decreases b.len(),
{
    if b.len() == 0 {
        assert(a + b =~= a);
    } else {
        assert((a + b).drop_last() =~= a + b.drop_last());
        lemma_key_index_concat(a, b.drop_last(), key);
        lemma_key_index(a, key);
        lemma_key_index(b.drop_last(), key);
        match key_index(a + b, key) {
            Some(i) => {
                assert((a + b)[i] == if i < a.len() { a[i] } else { b[i - a.len()] });
            },
            None => {},
        }
        match key_index(b, key) {
            Some(j) => {
                assert(b[j] == (a + b)[j + a.len()]);
            },
            None => {},
        }
    }
}

/// The same, for every name at once.
pub proof fn lemma_params_concat(a: Seq<(Seq<char>, Seq<char>)>, b: Seq<(Seq<char>, Seq<char>)>)
    ensures
        forall|key: Seq<char>|
            #[trigger] key_index(a + b, key) == match key_index(a, key) {
                Some(i) => Some(i),
                None => match key_index(b, key) {
                    Some(j) => Some(j + a.len()),
                    None => None,
                },
            },
        forall|key: Seq<char>|
            #[trigger] lookup(a + b, key) == match lookup(a, key) {
                Some(v) => Some(v),
                None => lookup(b, key),
            },
        forall|key: Seq<char>| #[trigger]
            key_count(a + b, key) == key_count(a, key) + key_count(b, key),
{
    assert forall|key: Seq<char>|
        #[trigger] key_index(a + b, key) == match key_index(a, key) {
            Some(i) => Some(i),
            None => match key_index(b, key) {
                Some(j) => Some(j + a.len()),
                None => None,
            },
        } by {
        lemma_key_index_concat(a, b, key);
    }
    assert forall|key: Seq<char>|
        #[trigger] lookup(a + b, key) == match lookup(a, key) {
            Some(v) => Some(v),
            None => lookup(b, key),
        } by {
        lemma_key_index_concat(a, b, key);
    }
    assert forall|key: Seq<char>| #[trigger]
        key_count(a + b, key) == key_count(a, key) + key_count(b, key) by {
        crate::gateway::lemma_key_count_concat(a, b, key);
    }
}

/// An empty list names nothing.
pub proof fn lemma_params_empty()
    ensures
        forall|key: Seq<char>|
            #[trigger] key_index(Seq::<(Seq<char>, Seq<char>)>::empty(), key) is None,
        forall|key: Seq<char>|
            #[trigger] lookup(Seq::<(Seq<char>, Seq<char>)>::empty(), key) is None,
        forall|key: Seq<char>|
            #[trigger] key_count(Seq::<(Seq<char>, Seq<char>)>::empty(), key) == 0,
{
}

/// A list of one parameter names it and nothing else.
pub proof fn lemma_params_single(e: (Seq<char>, Seq<char>))
    ensures
        forall|key: Seq<char>|
            #[trigger] key_index(seq![e], key) == if e.0 == key { Some(0int) } else { None },
        forall|key: Seq<char>|
            #[trigger] lookup(seq![e], key) == if e.0 == key { Some(e.1) } else { None },
        forall|key: Seq<char>|
            #[trigger] key_count(seq![e], key) == if e.0 == key { 1nat } else { 0nat },
{
    let empty = Seq::<(Seq<char>, Seq<char>)>::empty();
    assert(seq![e].drop_last() =~= empty);
    assert forall|key: Seq<char>|
        #[trigger] key_index(seq![e], key) == if e.0 == key { Some(0int) } else { None } by {
        assert(key_index(empty, key) is None);
    }
    assert forall|key: Seq<char>|
        #[trigger] key_count(seq![e], key) == if e.0 == key { 1nat } else { 0nat } by {
        assert(key_count(empty, key) == 0);
    }
}

/// Without a match, the count is zero.
pub proof fn lemma_key_count_absent(p: Seq<(Seq<char>, Seq<char>)>, key: Seq<char>)
    requires
        forall|k: int| 0 <= k < p.len() ==> p[k].0 != key,
    ensures
        key_count(p, key) == 0,
    decreases p.len(),
{
    if p.len() > 0 {
        let q = p.drop_last();
        assert forall|k: int| 0 <= k < q.len() implies q[k].0 != key by {
            assert(q[k] == p[k]);
        }
        lemma_key_count_absent(q, key);
    }
}

/// Appending counts the new entry.
pub proof fn lemma_key_count_push(
    p: Seq<(Seq<char>, Seq<char>)>,
    e: (Seq<char>, Seq<char>),
    key: Seq<char>,
)
    ensures
        key_count(p.push(e), key) == key_count(p, key) + if e.0 == key { 1nat } else { 0nat },
{
    assert(p.push(e).drop_last() == p);
}

/// Replacing an entry by one with the same name keeps the count.
pub proof fn lemma_key_count_update(
    p: Seq<(Seq<char>, Seq<char>)>,
    i: int,
    e: (Seq<char>, Seq<char>),
    key: Seq<char>,
)
    requires
        0 <= i < p.len(),
        p[i].0 == e.0,
    ensures
        key_count(p.update(i, e), key) == key_count(p, key),
    decreases p.len(),
{
    if i < p.len() - 1 {
        assert(p.update(i, e).drop_last() == p.drop_last().update(i, e));
        lemma_key_count_update(p.drop_last(), i, e, key);
    } else {
        assert(p.update(i, e).drop_last() == p.drop_last());
    }
}

/// A parameter, as a real client sends it.
pub fn param(key: &str, value: &str) -> (r: (String, String))
    ensures
        r.0@ == key@,
        r.1@ == value@,
{
    (String::from_str(key), String::from_str(value))
}

/// Whether `name` is `key`.
fn is_key(name: &String, key: &[char]) -> (r: bool)
    ensures
        r == (name@ == key@),
{
    let n = chars_of(name.as_str());
    same(&n, key)
}

/// The position of the first parameter named `key`.
pub fn key_position(params: &Params, key: &str) -> (r: Option<usize>)
    ensures
        r matches Some(i) ==> key_index(pairs(params@), key@) == Some(i as int) && i < params@.len(),
        r is None ==> key_index(pairs(params@), key@) is None,
{
    let k = chars_of(key);
    let ghost p = pairs(params@);
    proof {
        lemma_key_index(p, key@);
    }
    let mut i: usize = 0;
    while i < params.len()
        invariant
            p == pairs(params@),
            k@ == key@,
            i <= params@.len(),
            forall|m: int| 0 <= m < i ==> p[m].0 != key@,
            key_index(p, key@) matches Some(j) ==> 0 <= j < p.len() && p[j].0 == key@ && forall|
                m: int,
            |
                0 <= m < j ==> p[m].0 != key@,
            key_index(p, key@) is None ==> forall|m: int| 0 <= m < p.len() ==> p[m].0 != key@,
        decreases params@.len() - i,
    {
        if is_key(&params[i].0, &k) {
            assert(p[i as int].0 == key@);
            return Some(i);
        }
        i = i + 1;
    }
    None
}

/// The value of the first parameter named `key`.
pub fn find_param(params: &Params, key: &str) -> (r: Option<String>)
    ensures
        r matches Some(v) ==> lookup(pairs(params@), key@) == Some(v@),
        r is None ==> lookup(pairs(params@), key@) is None,
{
    match key_position(params, key) {
        Some(i) => Some(params[i].1.clone()),
        None => None,
    }
}

/// Adds a parameter, replacing an earlier one with the same name.
pub fn set_param(params: &mut Params, key: &str, value: &str)
    ensures
        key_index(pairs(old(params)@), key@) matches Some(i) ==> pairs(final(params)@) == pairs(
            old(params)@,
        ).update(i, (key@, value@)),
        key_index(pairs(old(params)@), key@) is None ==> pairs(final(params)@) == pairs(
            old(params)@,
        ).push((key@, value@)),
{
    match key_position(params, key) {
        Some(i) => {
            proof {
                lemma_key_index(pairs(params@), key@);
            }
            let name = params[i].0.clone();
            assert(name@ == key@);
            params.set(i, (name, String::from_str(value)));
            assert(pairs(params@) =~= pairs(old(params)@).update(i as int, (key@, value@)));
        },
        None => {
            params.push((String::from_str(key), String::from_str(value)));
            assert(pairs(params@) =~= pairs(old(params)@).push((key@, value@)));
        },
    }
}

/// Setting a parameter leaves exactly one entry of that name when there was at
/// most one before, and a reader then sees the new value.
pub proof fn law_set_param_replaces(p: Seq<(Seq<char>, Seq<char>)>, key: Seq<char>, value: Seq<char>)
    requires
        key_count(p, key) <= 1,
    ensures
        ({
            let q = match key_index(p, key) {
                Some(i) => p.update(i, (key, value)),
                None => p.push((key, value)),
            };
            &&& key_count(q, key) == 1
            &&& lookup(q, key) == Some(value)
            &&& q.len() == p.len() + if key_index(p, key) is Some { 0int } else { 1int }
        }),
{
    lemma_key_index(p, key);
    match key_index(p, key) {
        Some(i) => {
            lemma_key_count_update(p, i, (key, value), key);
            let q = p.update(i, (key, value));
            lemma_key_index(q, key);
            let j = key_index(q, key);
            assert(q[i].0 == key);
            if let Some(jj) = j {
                assert(jj == i);
            }
            assert(key_count(p, key) >= 1) by {
                lemma_count_positive(p, i, key);
            }
        },
        None => {
            lemma_key_count_absent(p, key);
            lemma_key_count_push(p, (key, value), key);
            let q = p.push((key, value));
            lemma_key_index(q, key);
            assert(q[p.len() as int].0 == key);
        },
    }
}

proof fn lemma_count_positive(p: Seq<(Seq<char>, Seq<char>)>, i: int, key: Seq<char>)
    requires
        0 <= i < p.len(),
        p[i].0 == key,
    ensures
        key_count(p, key) >= 1,
    decreases p.len(),
{
    if i < p.len() - 1 {
        assert(p.drop_last()[i] == p[i]);
        lemma_count_positive(p.drop_last(), i, key);
    }
}

/// The bare host of a base URL: `https://`/`http://` prefixes and trailing
/// slashes removed.
pub open spec fn host_text(base_url: Seq<char>) -> Seq<char> {
    strip_suffix_char(strip_prefixes(strip_prefixes(base_url, "https://"@), "http://"@), '/')
}

/// The `host`/`gw` form fields want the bare host, without the scheme.
pub fn host_of(base_url: &str) -> (r: String)
    ensures
        r@ == host_text(base_url@),
{
    let v = chars_of(base_url);
    let a = strip_prefixes_chars(&v, &chars_of("https://"));
    let b = strip_prefixes_chars(&a, &chars_of("http://"));
    let c = strip_suffix_char_chars(&b, '/');
    string_of(&c)
}

/// What `Url::parse` yields that normalisation reads: the scheme, the host and
/// an explicit, non-default port.
pub struct UrlParts {
    pub scheme: String,
    pub host: Option<String>,
    pub port: Option<u16>,
}

/// `UrlParts` as plain values.
pub open spec fn url_parts(u: UrlParts) -> (Seq<char>, Option<Seq<char>>, Option<u16>) {
    (u.scheme@, match u.host {
        Some(h) => Some(h@),
        None => None,
    }, u.port)
}

/// What `reqwest::Url::parse` makes of an address: its scheme, host and port,
/// or the parser's error message.
pub uninterp spec fn url_parse(s: Seq<char>) -> Result<(Seq<char>, Option<Seq<char>>, Option<u16>), Seq<char>>;

/// What the parser guarantees of every host it hands back: no `/` (a
/// forbidden host character, refused or never produced), and for `https` not
/// empty (an empty host of a special scheme is a parse error).
pub open spec fn host_ok(parsed: Result<(Seq<char>, Option<Seq<char>>, Option<u16>), Seq<char>>) -> bool {
    parsed matches Ok((scheme, Some(h), _)) ==> !h.contains('/') && (scheme == "https"@ ==> h.len()
        > 0)
}

/// Calls `reqwest::Url::parse` (the `url` crate's WHATWG parser) and keeps
/// `scheme()`, `host_str()` and `port()`, or the error's message. The contract
/// names the result, the parser being a function of the address alone, and
/// states `host_ok` of it: the host parser refuses `/` (the domain deny list
/// and the opaque-host character check both hold it) and answers an empty
/// host of a special scheme with `EmptyHost`. Nothing else of the parser is
/// stated.
#[verifier::external_body]
fn parse_url(s: &str) -> (r: Result<UrlParts, String>)
    ensures
        match r {
            Ok(u) => url_parse(s@) == Ok::<(Seq<char>, Option<Seq<char>>, Option<u16>), Seq<char>>(url_parts(u)),
            Err(m) => url_parse(s@) == Err::<(Seq<char>, Option<Seq<char>>, Option<u16>), Seq<char>>(m@),
        },
        r matches Ok(u) ==> host_ok(Ok(url_parts(u))),
{
    match reqwest::Url::parse(s) {
        Ok(url) => Ok(UrlParts {
            scheme: url.scheme().to_string(),
            host: url.host_str().map(|host| host.to_string()),
            port: url.port(),
        }),
        Err(error) => Err(error.to_string()),
    }
}

/// What the user typed, trimmed and without trailing slashes.
pub open spec fn server_text(server: Seq<char>) -> Seq<char> {
    strip_suffix_char(trim(server), '/')
}

/// The address handed to the URL parser: `https://` is assumed when no
/// scheme is given.
pub open spec fn with_scheme(server: Seq<char>) -> Seq<char> {
    if contains(server_text(server), "://"@) {
        server_text(server)
    } else {
        "https://"@ + server_text(server)
    }
}

/// The base URL for what the user typed, given what the parser made of
/// `with_scheme(server)`.
pub open spec fn normalized(
    server: Seq<char>,
    parsed: Result<(Seq<char>, Option<Seq<char>>, Option<u16>), Seq<char>>,
) -> Result<Seq<char>, ErrorView> {
    let s = server_text(server);
    if s.len() == 0 {
        Err(ErrorView::Config("no portal address was given"@))
    } else {
        match parsed {
            Err(m) => Err(ErrorView::Config(s + " is not a valid address: "@ + m)),
            Ok((scheme, host, port)) => if scheme != "https"@ {
                Err(ErrorView::Config("the portal address must use https"@))
            } else {
                match host {
                    None => Err(ErrorView::Config(s + " has no host name"@)),
                    Some(h) => match port {
                        Some(p) => Ok("https://"@ + h + ":"@ + decimal(p as nat)),
                        None => Ok("https://"@ + h),
                    },
                }
            },
        }
    }
}

/// `Result<String, Error>` as plain values.
pub open spec fn result_view(r: Result<String, Error>) -> Result<Seq<char>, ErrorView> {
    match r {
        Ok(s) => Ok(s@),
        Err(e) => Err(e@),
    }
}

/// The trimmed address without trailing slashes.
fn server_chars(server: &str) -> (r: Vec<char>)
    ensures
        r@ == server_text(server@),
{
    let v = chars_of(server);
    let t = trim_chars(&v);
    strip_suffix_char_chars(&t, '/')
}

/// The address handed to the URL parser.
pub fn address_with_scheme(server: &str) -> (r: String)
    ensures
        r@ == with_scheme(server@),
{
    let s = server_chars(server);
    if contains_chars(&s, &chars_of("://")) {
        string_of(&s)
    } else {
        let mut out = chars_of("https://");
        push_chars(&mut out, &s);
        string_of(&out)
    }
}

/// Turns what the parser made of the address into the base URL, or the
/// configuration error the user is shown.
pub fn normalize_parsed(server: &str, parsed: Result<UrlParts, String>) -> (r: Result<String, Error>)
    ensures
        result_view(r) == normalized(
            server@,
            match parsed {
                Ok(u) => Ok(url_parts(u)),
                Err(m) => Err(m@),
            },
        ),
{
    let s = server_chars(server);
    if s.len() == 0 {
        return Err(Error::Config(String::from_str("no portal address was given")));
    }
    match parsed {
        Err(m) => {
            let mut out = s.clone();
            push_str(&mut out, " is not a valid address: ");
            push_str(&mut out, m.as_str());
            Err(Error::Config(string_of(&out)))
        },
        Ok(u) => {
            let scheme = chars_of(u.scheme.as_str());
            if !same(&scheme, &chars_of("https")) {
                return Err(Error::Config(String::from_str("the portal address must use https")));
            }
            match u.host {
                None => {
                    let mut out = s.clone();
                    push_str(&mut out, " has no host name");
                    Err(Error::Config(string_of(&out)))
                },
                Some(h) => {
                    let mut out = chars_of("https://");
                    push_str(&mut out, h.as_str());
                    match u.port {
                        Some(p) => {
                            push_str(&mut out, ":");
                            let d = decimal_chars(p as u128);
                            push_chars(&mut out, &d);
                        },
                        None => {},
                    }
                    Ok(string_of(&out))
                },
            }
        },
    }
}

/// Normalises what the user typed into an `https://host[:port]` base URL.
pub fn normalize_server(server: &str) -> (r: Result<String, Error>)
    ensures
        result_view(r) == normalized(server@, url_parse(with_scheme(server@))),
        host_ok(url_parse(with_scheme(server@))),
        r matches Ok(u) ==> u@ == "https://"@ + host_text(u@) && host_text(u@).len() > 0
            && !host_text(u@).contains('/'),
{
    let address = address_with_scheme(server);
    let parsed = parse_url(address.as_str());
    let r = normalize_parsed(server, parsed);
    proof {
        if r is Ok {
            law_base_url_host(server@, url_parse(with_scheme(server@)));
        }
    }
    r
}

/// A reply as the login reads it: the body of a 2xx reply, or the status,
/// the reason header and the body of any other.
pub open spec fn reply_of(status: u16, reason: Seq<char>, body: Seq<char>) -> Result<Seq<char>, ErrorView> {
    if 200 <= status <= 299 {
        Ok(body)
    } else {
        Err(ErrorView::Server(crate::error::ServerErrorView { status, reason, body }))
    }
}

/// Reads a reply: any non-2xx status becomes a `ServerError` that carries the
/// status, the reason header and the body.
pub fn read_reply(status: u16, reason: String, body: String) -> (r: Result<String, Error>)
    ensures
        result_view(r) == reply_of(status, reason@, body@),
{
    if 200 <= status && status <= 299 {
        Ok(body)
    } else {
        Err(Error::Server(crate::error::ServerError { status, reason, body }))
    }
}

/// The field names of a request, body first, then query, joined by `, `.
pub open spec fn field_names(f: Seq<(Seq<char>, Seq<char>)>) -> Seq<char>
    decreases f.len(),
{
    if f.len() == 0 {
        Seq::empty()
    } else if f.len() == 1 {
        f[0].0
    } else {
        field_names(f.drop_last()) + ", "@ + f.last().0
    }
}

/// The progress line for a POST: the URL and the names of the fields sent,
/// never their values.
pub fn post_line(url: &str, query: &Params, body: &Params) -> (r: String)
    requires
        body@.len() + query@.len() <= usize::MAX,
    ensures
        r@ == "POST "@ + url@ + " ["@ + field_names(pairs(body@) + pairs(query@)) + "]"@,
{
    let ghost all = pairs(body@) + pairs(query@);
    let mut out = chars_of("POST ");
    push_str(&mut out, url);
    push_str(&mut out, " [");
    let ghost prefix = out@;
    let total = body.len() + query.len();
    let mut k: usize = 0;
    while k < total
        invariant
            k <= total,
            total == all.len(),
            all == pairs(body@) + pairs(query@),
            out@ == prefix + field_names(all.take(k as int)),
        decreases total - k,
    {
        let name = if k < body.len() {
            body[k].0.as_str()
        } else {
            query[k - body.len()].0.as_str()
        };
        assert(name@ == all[k as int].0);
        if k > 0 {
            push_str(&mut out, ", ");
        }
        push_str(&mut out, name);
        k = k + 1;
        assert(all.take(k as int).drop_last() =~= all.take(k - 1));
        if k == 1 {
            assert(all.take(0) =~= Seq::<(Seq<char>, Seq<char>)>::empty());
        }
    }
    assert(all.take(k as int) =~= all);
    push_str(&mut out, "]");
    string_of(&out)
}

/// Decimal digits hold no `/`.
proof fn lemma_decimal_no_slash(n: nat)
    ensures
        !decimal(n).contains('/'),
    decreases n,
{
    if n >= 10 {
        lemma_decimal_no_slash(n / 10);
        assert(decimal(n) == decimal(n / 10).push(crate::text::digit_char(n % 10)));
        assert forall|i: int| 0 <= i < decimal(n).len() implies decimal(n)[i] != '/' by {
            if i < decimal(n / 10).len() {
                assert(decimal(n)[i] == decimal(n / 10)[i]);
            }
        }
    }
}

/// A text without `/` loses nothing to `host_text`'s stripping.
proof fn lemma_host_text_keeps(h: Seq<char>)
    requires
        !h.contains('/'),
    ensures
        host_text("https://"@ + h) == h,
{
    reveal_strlit("https://");
    reveal_strlit("http://");
    let u = "https://"@ + h;
    assert(u.skip(8) =~= h);
    assert(u.take(8) =~= "https://"@);
    assert(crate::text::has_prefix(u, "https://"@));
    assert(!crate::text::has_prefix(h, "https://"@)) by {
        if crate::text::has_prefix(h, "https://"@) {
            assert(h[6] == "https://"@[6]);
        }
    }
    assert(!crate::text::has_prefix(h, "http://"@)) by {
        if crate::text::has_prefix(h, "http://"@) {
            assert(h[5] == "http://"@[5]);
        }
    }
    assert(h.len() > 0 ==> h.last() != '/');
    assert(strip_prefixes(h, "https://"@) == h);
    assert(strip_prefixes(u, "https://"@) == h);
    assert(strip_prefixes(h, "http://"@) == h);
    assert(strip_suffix_char(h, '/') == h);
}

/// A base URL that normalisation hands back is `https://` and its bare host:
/// `host_of` gives back what follows the scheme, which is never empty and
/// holds no `/`. `parsed` is what the parser made of the address; `host_ok` is
/// what `normalize_server` states of it.
pub proof fn law_base_url_host(
    server: Seq<char>,
    parsed: Result<(Seq<char>, Option<Seq<char>>, Option<u16>), Seq<char>>,
)
    requires
        host_ok(parsed),
        normalized(server, parsed) is Ok,
    ensures
        normalized(server, parsed)->Ok_0 == "https://"@ + host_text(normalized(server, parsed)->Ok_0),
        host_text(normalized(server, parsed)->Ok_0).len() > 0,
        !host_text(normalized(server, parsed)->Ok_0).contains('/'),
{
    reveal_strlit("https");
    reveal_strlit(":");
    let (scheme, host, port) = parsed->Ok_0;
    let h = host->Some_0;
    let rest = match port {
        Some(p) => h + ":"@ + decimal(p as nat),
        None => h,
    };
    assert(normalized(server, parsed)->Ok_0 == "https://"@ + rest);
    if let Some(p) = port {
        lemma_decimal_no_slash(p as nat);
        assert forall|i: int| 0 <= i < rest.len() implies rest[i] != '/' by {
            if i < h.len() {
                assert(rest[i] == h[i]);
            } else if i == h.len() {
                assert(rest[i] == ':');
            } else {
                assert(rest[i] == decimal(p as nat)[i - h.len() - 1]);
            }
        }
    }
    lemma_host_text_keeps(rest);
}

} // verus!
