//! The errors a login can end in, and the sentence each is reported with.
use vstd::prelude::*;

use crate::text::{chars_of, decimal, decimal_chars, push_chars, push_str, slice_of, string_of, trim, trimmed};

verus! {

/// A non-2xx reply from a GlobalProtect endpoint.
///
/// PAN-OS answers a rejected client with non-standard statuses (512 "Custom
/// error", 513 "Valid client certificate is required") and puts the human
/// readable cause in the `x-private-pan-globalprotect` header rather than the
/// body, so both are captured here.
#[derive(Debug)]
pub struct ServerError {
    pub status: u16,
    pub reason: String,
    pub body: String,
}

/// What a `ServerError` holds, as plain values.
pub struct ServerErrorView {
    pub status: u16,
    pub reason: Seq<char>,
    pub body: Seq<char>,
}

impl View for ServerError {
    type V = ServerErrorView;

    open spec fn view(&self) -> ServerErrorView {
        ServerErrorView { status: self.status, reason: self.reason@, body: self.body@ }
    }
}

impl Clone for ServerError {
    fn clone(&self) -> (r: Self)
        ensures
            r@ == self@,
    {
        ServerError { status: self.status, reason: self.reason.clone(), body: self.body.clone() }
    }
}

#[derive(Debug)]
pub enum Error {
    Config(String),
    Network(String),
    Server(ServerError),
    Parse(String),
    Auth(String),
    Unsupported(String),
    Cancelled,
}

/// What an `Error` holds, as plain values.
pub enum ErrorView {
    Config(Seq<char>),
    Network(Seq<char>),
    Server(ServerErrorView),
    Parse(Seq<char>),
    Auth(Seq<char>),
    Unsupported(Seq<char>),
    Cancelled,
}

impl View for Error {
    type V = ErrorView;

    open spec fn view(&self) -> ErrorView {
        match self {
            Error::Config(m) => ErrorView::Config(m@),
            Error::Network(m) => ErrorView::Network(m@),
            Error::Server(e) => ErrorView::Server(e@),
            Error::Parse(m) => ErrorView::Parse(m@),
            Error::Auth(m) => ErrorView::Auth(m@),
            Error::Unsupported(m) => ErrorView::Unsupported(m@),
            Error::Cancelled => ErrorView::Cancelled,
        }
    }
}

impl Clone for Error {
    fn clone(&self) -> (r: Self)
        ensures
            r@ == self@,
    {
        match self {
            Error::Config(m) => Error::Config(m.clone()),
            Error::Network(m) => Error::Network(m.clone()),
            Error::Server(e) => Error::Server(e.clone()),
            Error::Parse(m) => Error::Parse(m.clone()),
            Error::Auth(m) => Error::Auth(m.clone()),
            Error::Unsupported(m) => Error::Unsupported(m.clone()),
            Error::Cancelled => Error::Cancelled,
        }
    }
}

/// At most `limit` characters of `value`, marked with `...` when cut.
pub open spec fn truncated(value: Seq<char>, limit: nat) -> Seq<char> {
    if value.len() <= limit {
        value
    } else {
        value.take(limit as int) + "..."@
    }
}

/// The sentence a `ServerError` is shown with.
pub open spec fn server_error_text(e: ServerErrorView) -> Seq<char> {
    let body = trim(e.body);
    "server returned HTTP "@ + decimal(e.status as nat) + (if e.reason.len() > 0 {
        " ("@ + e.reason + ")"@
    } else {
        Seq::empty()
    }) + (if e.status == 512 && e.reason.len() == 0 {
        " - the portal rejected this client. Try a different reported client OS."@
    } else {
        Seq::empty()
    }) + (if body.len() > 0 {
        ": "@ + truncated(body, 400)
    } else {
        Seq::empty()
    })
}

/// The sentence an `Error` is shown with.
pub open spec fn error_text(e: ErrorView) -> Seq<char> {
    match e {
        ErrorView::Config(m) => m,
        ErrorView::Network(m) => "could not reach the portal: "@ + m,
        ErrorView::Server(s) => server_error_text(s),
        ErrorView::Parse(m) => "could not understand the server response: "@ + m,
        ErrorView::Auth(m) => "authentication failed: "@ + m,
        ErrorView::Unsupported(m) => m,
        ErrorView::Cancelled => "cancelled"@,
    }
}

/// At most `limit` characters of `value`, with `...` appended when cut.
pub fn truncate(value: &[char], limit: usize) -> (r: Vec<char>)
    ensures
        r@ == truncated(value@, limit as nat),
{
    if value.len() <= limit {
        return slice_of(value, 0, value.len());
    }
    let mut out = slice_of(value, 0, limit);
    push_str(&mut out, "...");
    assert(value@.subrange(0, limit as int) == value@.take(limit as int));
    out
}

impl ServerError {
    /// The sentence this error is shown with (its `Display`).
    pub fn message(&self) -> (r: String)
        ensures
            r@ == server_error_text(self@),
    {
        let mut out: Vec<char> = Vec::new();
        push_str(&mut out, "server returned HTTP ");
        let status = decimal_chars(self.status as u128);
        push_chars(&mut out, &status);
        let reason = chars_of(self.reason.as_str());
        let ghost a = out@;
        if reason.len() > 0 {
            push_str(&mut out, " (");
            push_chars(&mut out, &reason);
            push_str(&mut out, ")");
        }
        let ghost b = out@;
        if self.status == 512 && reason.len() == 0 {
            push_str(&mut out, " - the portal rejected this client. Try a different reported client OS.");
        }
        let ghost c = out@;
        let body = trimmed(self.body.as_str());
        if body.len() > 0 {
            push_str(&mut out, ": ");
            let cut = truncate(&body, 400);
            push_chars(&mut out, &cut);
        }
        proof {
            let e = self@;
            let x = if e.reason.len() > 0 { " ("@ + e.reason + ")"@ } else { Seq::empty() };
            let y = if e.status == 512 && e.reason.len() == 0 {
                " - the portal rejected this client. Try a different reported client OS."@
            } else {
                Seq::empty()
            };
            let z = if trim(e.body).len() > 0 {
                ": "@ + truncated(trim(e.body), 400)
            } else {
                Seq::empty()
            };
            assert(b == a + x);
            assert(c == a + x + y);
            assert(out@ == a + x + y + z);
        }
        string_of(&out)
    }
}

impl Error {
    /// The sentence this error is shown with (its `Display`).
    pub fn message(&self) -> (r: String)
        ensures
            r@ == error_text(self@),
    {
        match self {
            Error::Config(m) => m.clone(),
            Error::Network(m) => String::from_str("could not reach the portal: ").concat(m.as_str()),
            Error::Server(e) => e.message(),
            Error::Parse(m) => String::from_str("could not understand the server response: ").concat(
                m.as_str(),
            ),
            Error::Auth(m) => String::from_str("authentication failed: ").concat(m.as_str()),
            Error::Unsupported(m) => m.clone(),
            Error::Cancelled => String::from_str("cancelled"),
        }
    }
}

} // verus!
