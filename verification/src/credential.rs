//! The credential half of a portal or gateway login body.
//!
//! `Credential` has no `Debug`, so it can never reach a log through `{:?}`.
use vstd::prelude::*;
use zeroize::Zeroize;

use crate::http::{pairs, param, Params};
use crate::text::{chars_of, push_str, string_of};
use crate::profile::{opt_view, saml_password_of, ClientOs, Profile};

verus! {

#[allow(inconsistent_fields)]
pub enum Credential {
    /// Username and password typed by the user.
    Password { username: String, password: String },
    /// Cookies handed out by a successful portal login, reused against the
    /// gateway so the user is not prompted twice.
    PortalCookie {
        username: String,
        password: Option<String>,
        user_auth_cookie: Option<String>,
        prelogon_user_auth_cookie: Option<String>,
    },
}

/// A `Credential` as plain values.
#[allow(inconsistent_fields)]
pub enum CredentialView {
    Password { username: Seq<char>, password: Seq<char> },
    PortalCookie {
        username: Seq<char>,
        password: Option<Seq<char>>,
        user_auth_cookie: Option<Seq<char>>,
        prelogon_user_auth_cookie: Option<Seq<char>>,
    },
}

impl View for Credential {
    type V = CredentialView;

    open spec fn view(&self) -> CredentialView {
        match self {
            Credential::Password { username, password } => CredentialView::Password {
                username: username@,
                password: password@,
            },
            Credential::PortalCookie {
                username,
                password,
                user_auth_cookie,
                prelogon_user_auth_cookie,
            } => CredentialView::PortalCookie {
                username: username@,
                password: opt_view(*password),
                user_auth_cookie: opt_view(*user_auth_cookie),
                prelogon_user_auth_cookie: opt_view(*prelogon_user_auth_cookie),
            },
        }
    }
}

/// Copies an optional string.
pub fn clone_opt(o: &Option<String>) -> (r: Option<String>)
    ensures
        opt_view(r) == opt_view(*o),
{
    match o {
        Some(s) => Some(s.clone()),
        None => None,
    }
}

impl Clone for Credential {
    fn clone(&self) -> (r: Self)
        ensures
            r@ == self@,
    {
        match self {
            Credential::Password { username, password } => Credential::Password {
                username: username.clone(),
                password: password.clone(),
            },
            Credential::PortalCookie {
                username,
                password,
                user_auth_cookie,
                prelogon_user_auth_cookie,
            } => Credential::PortalCookie {
                username: username.clone(),
                password: clone_opt(password),
                user_auth_cookie: clone_opt(user_auth_cookie),
                prelogon_user_auth_cookie: clone_opt(prelogon_user_auth_cookie),
            },
        }
    }
}

pub open spec fn credential_username(c: CredentialView) -> Seq<char> {
    match c {
        CredentialView::Password { username, .. } => username,
        CredentialView::PortalCookie { username, .. } => username,
    }
}

/// `value`, or `default` when there is none.
pub open spec fn or_else(value: Option<Seq<char>>, default: Seq<char>) -> Seq<char> {
    match value {
        Some(v) => v,
        None => default,
    }
}

/// `user`, `passwd` and the cookie fields, in the order a real client sends
/// them. Every field is always present - the server treats a missing key
/// differently from an empty one.
pub open spec fn credential_params(c: CredentialView, os: ClientOs) -> Seq<(Seq<char>, Seq<char>)> {
    let (password, user_auth_cookie, prelogon) = match c {
        CredentialView::Password { password, .. } => (password, ""@, ""@),
        CredentialView::PortalCookie {
            password,
            user_auth_cookie,
            prelogon_user_auth_cookie,
            ..
        } => (
            or_else(password, saml_password_of(os)),
            or_else(user_auth_cookie, "empty"@),
            or_else(prelogon_user_auth_cookie, "empty"@),
        ),
    };
    seq![
        ("user"@, credential_username(c)),
        ("passwd"@, password),
        ("prelogin-cookie"@, ""@),
        ("portal-userauthcookie"@, user_auth_cookie),
        ("portal-prelogonuserauthcookie"@, prelogon),
        ("token"@, ""@),
    ]
}

/// The string in `value`, or `default`.
fn value_or(value: &Option<String>, default: &str) -> (r: String)
    ensures
        r@ == or_else(opt_view(*value), default@),
{
    match value {
        Some(v) => v.clone(),
        None => String::from_str(default),
    }
}

/// Calls `zeroize::Zeroize::zeroize` on a `String`, which overwrites its
/// buffer with zeroes and leaves it empty.
#[verifier::external_body]
pub(crate) fn wipe(s: &mut String)
    ensures
        final(s)@ == Seq::<char>::empty(),
{
    s.zeroize();
}

/// A character as `{:?}` writes it inside a quoted string: quotes,
/// backslashes and the common control characters escaped.
pub open spec fn escaped_char(c: char) -> Seq<char> {
    if c == '"' {
        seq!['\\', '"']
    } else if c == '\\' {
        seq!['\\', '\\']
    } else if c == '\n' {
        seq!['\\', 'n']
    } else if c == '\r' {
        seq!['\\', 'r']
    } else if c == '\t' {
        seq!['\\', 't']
    } else if c == '\0' {
        seq!['\\', '0']
    } else {
        seq![c]
    }
}

/// A text with each character escaped.
pub open spec fn escaped(s: Seq<char>) -> Seq<char>
    decreases s.len(),
{
    if s.len() == 0 {
        Seq::empty()
    } else {
        escaped(s.drop_last()) + escaped_char(s.last())
    }
}

/// How a credential is shown in logs and diagnostics: its username, and
/// never its password or cookies.
pub open spec fn redacted_text(c: CredentialView) -> Seq<char> {
    "Credential { username: \""@ + escaped(credential_username(c))
        + "\", password: \"<redacted>\" }"@
}

/// A credential whose password is gone: empty, or absent where a portal
/// cookie stands in for it.
pub open spec fn wiped(c: CredentialView) -> bool {
    match c {
        CredentialView::Password { password, .. } => password.len() == 0,
        CredentialView::PortalCookie { password, .. } => password matches Some(w) ==> w.len() == 0,
    }
}

impl Credential {
    pub fn password(username: &str, password: &str) -> (r: Credential)
        ensures
            r@ == (CredentialView::Password { username: username@, password: password@ }),
    {
        Credential::Password {
            username: String::from_str(username),
            password: String::from_str(password),
        }
    }

    /// How the credential is shown in logs and diagnostics, in the shape
    /// `{:?}` gives a struct: the username, and `<redacted>` in place of the
    /// password. Characters other than quotes, backslashes and the common
    /// control characters are written as they are.
    pub fn redacted(&self) -> (r: String)
        ensures
            r@ == redacted_text(self@),
    {
        let name = chars_of(self.username());
        let mut out = chars_of("Credential { username: \"");
        let ghost start = out@;
        let mut i: usize = 0;
        while i < name.len()
            invariant
                i <= name@.len(),
                out@ == start + escaped(name@.take(i as int)),
            decreases name@.len() - i,
        {
            let c = name[i];
            proof {
                assert(name@.take(i as int + 1).drop_last() =~= name@.take(i as int));
            }
            if c == '"' {
                out.push('\\');
                out.push('"');
            } else if c == '\\' {
                out.push('\\');
                out.push('\\');
            } else if c == '\n' {
                out.push('\\');
                out.push('n');
            } else if c == '\r' {
                out.push('\\');
                out.push('r');
            } else if c == '\t' {
                out.push('\\');
                out.push('t');
            } else if c == '\0' {
                out.push('\\');
                out.push('0');
            } else {
                out.push(c);
            }
            assert(out@ =~= start + escaped(name@.take(i as int + 1)));
            i = i + 1;
        }
        assert(name@.take(name@.len() as int) =~= name@);
        push_str(&mut out, "\", password: \"<redacted>\" }");
        proof {
            reveal_strlit("Credential { username: \"");
            reveal_strlit("\", password: \"<redacted>\" }");
        }
        string_of(&out)
    }

    pub fn username(&self) -> (r: &str)
        ensures
            r@ == credential_username(self@),
    {
        match self {
            Credential::Password { username, .. } => username.as_str(),
            Credential::PortalCookie { username, .. } => username.as_str(),
        }
    }

    /// `user`, `passwd` and the cookie fields, in the order a real client sends
    /// them. Every field is always present - the server treats a missing key
    /// differently from an empty one.
    pub fn params(&self, profile: &Profile) -> (r: Params)
        ensures
            pairs(r@) == credential_params(self@, profile.client_os),
    {
        let (password, user_auth_cookie, prelogon) = match self {
            Credential::Password { password, .. } => (
                password.clone(),
                String::new(),
                String::new(),
            ),
            Credential::PortalCookie {
                password,
                user_auth_cookie,
                prelogon_user_auth_cookie,
                ..
            } => (
                value_or(password, profile.client_os.saml_password()),
                value_or(user_auth_cookie, "empty"),
                value_or(prelogon_user_auth_cookie, "empty"),
            ),
        };
        let r = vec![
            param("user", self.username()),
            param("passwd", password.as_str()),
            param("prelogin-cookie", ""),
            param("portal-userauthcookie", user_auth_cookie.as_str()),
            param("portal-prelogonuserauthcookie", prelogon.as_str()),
            param("token", ""),
        ];
        proof {
            reveal_strlit("");
            let c = credential_params(self@, profile.client_os);
            assert(r@.len() == 6);
            assert(pairs(r@)[0] == c[0]);
            assert(pairs(r@)[1] == c[1]);
            assert(pairs(r@)[2] == c[2]);
            assert(pairs(r@)[3] == c[3]);
            assert(pairs(r@)[4] == c[4]);
            assert(pairs(r@)[5] == c[5]);
        }
        assert(pairs(r@) =~= credential_params(self@, profile.client_os));
        r
    }

    /// Overwrites the password this credential holds and leaves it empty.
    pub fn zeroize(&mut self)
        ensures
            match final(self)@ {
                CredentialView::Password { username, password } => old(self)@ matches CredentialView::Password { username: u, .. } && username == u
                    && password.len() == 0,
                CredentialView::PortalCookie {
                    username,
                    password,
                    user_auth_cookie,
                    prelogon_user_auth_cookie,
                } => old(self)@ matches CredentialView::PortalCookie {
                    username: u,
                    password: p,
                    user_auth_cookie: a,
                    prelogon_user_auth_cookie: b,
                } && username == u && user_auth_cookie == a && prelogon_user_auth_cookie == b && (
                p is Some <==> password is Some) && (password matches Some(w) ==> w.len() == 0),
            },
    {
        match self {
            Credential::Password { password, .. } => wipe(password),
            Credential::PortalCookie { password, .. } => {
                match password {
                    Some(p) => wipe(p),
                    None => {},
                }
            },
        }
    }
}

/// The credential's login fields, by what the credential holds: always six,
/// `user`, `passwd`, `prelogin-cookie`, `portal-userauthcookie`,
/// `portal-prelogonuserauthcookie` and `token`, in that order.
/// - A typed password is sent as `passwd`, with the cookie fields empty.
/// - A portal's cookies are passed on to the gateway as they came; only a
///   cookie the portal did not send is `empty`. The portal's password is sent
///   when there is one; without it Linux sends `SAMLPASS` and the others send
///   nothing.
pub proof fn law_credential_fields(c: CredentialView, os: ClientOs)
    ensures
        ({
            let f = credential_params(c, os);
            &&& f.len() == 6
            &&& f[0].0 == "user"@ && f[1].0 == "passwd"@ && f[2].0 == "prelogin-cookie"@
            &&& f[3].0 == "portal-userauthcookie"@ && f[4].0 == "portal-prelogonuserauthcookie"@
            &&& f[5].0 == "token"@
            &&& f[2].1.len() == 0 && f[5].1.len() == 0
            &&& match c {
                CredentialView::Password { username, password } => {
                    &&& f[0].1 == username
                    &&& f[1].1 == password
                    &&& f[3].1.len() == 0
                    &&& f[4].1.len() == 0
                },
                CredentialView::PortalCookie {
                    username,
                    password,
                    user_auth_cookie,
                    prelogon_user_auth_cookie,
                } => {
                    &&& f[0].1 == username
                    &&& password matches Some(p) ==> f[1].1 == p
                    &&& password is None && os == ClientOs::Linux ==> f[1].1 == "SAMLPASS"@
                    &&& password is None && os != ClientOs::Linux ==> f[1].1.len() == 0
                    &&& user_auth_cookie matches Some(v) ==> f[3].1 == v
                    &&& user_auth_cookie is None ==> f[3].1 == "empty"@
                    &&& prelogon_user_auth_cookie matches Some(v) ==> f[4].1 == v
                    &&& prelogon_user_auth_cookie is None ==> f[4].1 == "empty"@
                },
            }
        }),
{
    reveal_strlit("");
}

} // verus!
