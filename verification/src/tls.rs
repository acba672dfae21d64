//! Certificate trust that mirrors what libopenconnect does for the tunnel, so a
//! fingerprint accepted here is also accepted by openconnect.
use vstd::prelude::*;

use crate::digest::{base64_encode, base64_standard, sha256, sha256_digest};
use crate::error::{Error, ErrorView};
use crate::profile::opt_view;
use crate::text::{chars_of, push_str, string_of};

verus! {

/// What the user is shown when a certificate does not validate.
#[derive(Debug)]
pub struct CertPrompt {
    /// `pin-sha256:<base64>`, the same shape `openconnect_get_peer_cert_hash()`
    /// produces, so one stored value serves both the login and the tunnel.
    pub fingerprint: String,
    pub details: String,
}

impl Clone for CertPrompt {
    fn clone(&self) -> (r: Self)
        ensures
            r.fingerprint@ == self.fingerprint@,
            r.details@ == self.details@,
    {
        CertPrompt { fingerprint: self.fingerprint.clone(), details: self.details.clone() }
    }
}

/// Where the TLS trust and the client identity come from.
#[derive(Debug)]
pub struct TlsOptions {
    /// Extra CA bundle, as configured in settings.
    pub cafile: Option<String>,
    pub client_cert: Option<String>,
    pub client_key: Option<String>,
    /// Fingerprint the user accepted previously.
    pub trusted_fingerprint: Option<String>,
}

impl Clone for TlsOptions {
    fn clone(&self) -> (r: Self)
        ensures
            opt_view(r.cafile) == opt_view(self.cafile),
            opt_view(r.client_cert) == opt_view(self.client_cert),
            opt_view(r.client_key) == opt_view(self.client_key),
            opt_view(r.trusted_fingerprint) == opt_view(self.trusted_fingerprint),
    {
        TlsOptions {
            cafile: crate::credential::clone_opt(&self.cafile),
            client_cert: crate::credential::clone_opt(&self.client_cert),
            client_key: crate::credential::clone_opt(&self.client_key),
            trusted_fingerprint: crate::credential::clone_opt(&self.trusted_fingerprint),
        }
    }
}

impl Default for TlsOptions {
    fn default() -> (r: Self)
        ensures
            r.cafile is None,
            r.client_cert is None,
            r.client_key is None,
            r.trusted_fingerprint is None,
    {
        TlsOptions { cafile: None, client_cert: None, client_key: None, trusted_fingerprint: None }
    }
}

/// What `x509_parser` reads of a DER certificate: the DER bytes of its
/// SubjectPublicKeyInfo, then its subject, issuer and validity bounds as the
/// parser displays them; `None` when the bytes are not a certificate.
pub uninterp spec fn x509_certificate(der: Seq<u8>) -> Option<
    (Seq<u8>, Seq<char>, Seq<char>, Seq<char>, Seq<char>),
>;

/// The parts of a certificate the library reads.
pub struct CertificateFields {
    /// The raw SubjectPublicKeyInfo.
    pub spki: Vec<u8>,
    pub subject: String,
    pub issuer: String,
    pub not_before: String,
    pub not_after: String,
}

/// `CertificateFields` as plain values.
pub open spec fn fields_view(f: CertificateFields) -> (Seq<u8>, Seq<char>, Seq<char>, Seq<char>, Seq<char>) {
    (f.spki@, f.subject@, f.issuer@, f.not_before@, f.not_after@)
}

/// Calls `x509_parser::parse_x509_certificate` and keeps what it reads of
/// the certificate: the raw `public_key()` bytes, and `subject()`,
/// `issuer()`, `validity().not_before` and `validity().not_after` as their
/// `Display` writes them. The contract only names that result.
#[verifier::external_body]
fn certificate_fields(der: &[u8]) -> (r: Option<CertificateFields>)
    ensures
        match r {
            Some(f) => x509_certificate(der@) == Some(fields_view(f)),
            None => x509_certificate(der@) is None,
        },
{
    match x509_parser::parse_x509_certificate(der) {
        Ok((_, certificate)) => Some(CertificateFields {
            spki: certificate.public_key().raw.to_vec(),
            subject: certificate.subject().to_string(),
            issuer: certificate.issuer().to_string(),
            not_before: certificate.validity().not_before.to_string(),
            not_after: certificate.validity().not_after.to_string(),
        }),
        Err(_) => None,
    }
}

/// The SubjectPublicKeyInfo of a DER certificate, if it is one.
pub open spec fn x509_spki(der: Seq<u8>) -> Option<Seq<u8>> {
    match x509_certificate(der) {
        Some(c) => Some(c.0),
        None => None,
    }
}

/// The subject, issuer and validity bounds of a DER certificate, if it is
/// one.
pub open spec fn x509_details(der: Seq<u8>) -> Option<(Seq<char>, Seq<char>, Seq<char>, Seq<char>)> {
    match x509_certificate(der) {
        Some(c) => Some((c.1, c.2, c.3, c.4)),
        None => None,
    }
}

/// What the prompt shows of a certificate: nothing when it could not be
/// read, else its subject, issuer and validity.
pub open spec fn details_text(f: Option<(Seq<char>, Seq<char>, Seq<char>, Seq<char>)>) -> Seq<char> {
    match f {
        None => Seq::empty(),
        Some((subject, issuer, not_before, not_after)) => "Subject: "@ + subject + "\nIssuer: "@
            + issuer + "\nValid: "@ + not_before + " - "@ + not_after,
    }
}

/// The details text for the subject, issuer and validity bounds read from a
/// certificate.
pub fn details_of(fields: Option<(String, String, String, String)>) -> (r: String)
    ensures
        r@ == details_text(
            match fields {
                Some(f) => Some((f.0@, f.1@, f.2@, f.3@)),
                None => None,
            },
        ),
{
    match fields {
        None => String::new(),
        Some((subject, issuer, not_before, not_after)) => {
            let mut out = chars_of("Subject: ");
            push_str(&mut out, subject.as_str());
            push_str(&mut out, "\nIssuer: ");
            push_str(&mut out, issuer.as_str());
            push_str(&mut out, "\nValid: ");
            push_str(&mut out, not_before.as_str());
            push_str(&mut out, " - ");
            push_str(&mut out, not_after.as_str());
            string_of(&out)
        },
    }
}

/// The certificate's subject, issuer and validity, as shown in the prompt;
/// empty when the bytes are not a certificate.
pub fn certificate_details(der: &[u8]) -> (r: String)
    ensures
        r@ == details_text(x509_details(der@)),
{
    match certificate_fields(der) {
        Some(f) => details_of(Some((f.subject, f.issuer, f.not_before, f.not_after))),
        None => details_of(None),
    }
}

/// openconnect's `pin-sha256:` form of a public key: the base64 of the
/// SHA-256 of its SubjectPublicKeyInfo.
pub open spec fn pin_of(spki: Seq<u8>) -> Seq<char> {
    "pin-sha256:"@ + base64_standard(sha256_digest(spki))
}

/// The `pin-sha256:` fingerprint of a SubjectPublicKeyInfo.
pub fn fingerprint_of_key(spki: &[u8]) -> (r: String)
    ensures
        r@ == pin_of(spki@),
        r@.len() == 55,
{
    let digest = sha256(spki);
    let encoded = base64_encode(digest.as_slice());
    let mut out = chars_of("pin-sha256:");
    proof {
        reveal_strlit("pin-sha256:");
    }
    push_str(&mut out, encoded.as_str());
    string_of(&out)
}

/// SHA-256 over the SubjectPublicKeyInfo, which is what openconnect hashes for
/// its `sha256:`/`pin-sha256:` forms - not the full certificate.
pub fn public_key_fingerprint(certificate: &[u8]) -> (r: Option<String>)
    ensures
        match x509_spki(certificate@) {
            Some(k) => r matches Some(f) && f@ == pin_of(k),
            None => r is None,
        },
        r matches Some(f) ==> f@.len() == 55,
{
    match certificate_fields(certificate) {
        Some(f) => Some(fingerprint_of_key(f.spki.as_slice())),
        None => None,
    }
}

/// What the prompt says: the rejection, then the certificate's own details
/// when there are any.
pub open spec fn prompt_text(rejection: Seq<char>, details: Seq<char>) -> Seq<char> {
    if details.len() == 0 {
        rejection
    } else {
        rejection + "\n\n"@ + details
    }
}

/// What the prompt says: the rejection, then the certificate's own details
/// when there are any.
pub fn prompt_details(rejection: &str, details: &str) -> (r: String)
    ensures
        r@ == prompt_text(rejection@, details@),
{
    if details.unicode_len() == 0 {
        return String::from_str(rejection);
    }
    let mut out = chars_of(rejection);
    push_str(&mut out, "\n\n");
    push_str(&mut out, details);
    string_of(&out)
}

/// What to do with a server certificate.
#[derive(Debug, PartialEq, Eq, Structural)]
pub enum CertDecision {
    /// Accept it without asking.
    Trusted,
    /// Refuse it.
    Rejected,
    /// Ask the user whether to trust this fingerprint.
    Ask,
}

/// The decision for a certificate with this fingerprint, given whether the
/// regular chain validation accepted it and which fingerprint is pinned.
pub open spec fn decision_of(
    pinned: Option<Seq<char>>,
    fingerprint: Option<Seq<char>>,
    chain_valid: bool,
) -> CertDecision {
    if fingerprint is Some && pinned == fingerprint {
        CertDecision::Trusted
    } else if chain_valid {
        CertDecision::Trusted
    } else if fingerprint is None {
        CertDecision::Rejected
    } else {
        CertDecision::Ask
    }
}

/// The fingerprint the user accepted, consulted before the regular chain
/// validation and updated when the user accepts another one.
pub struct Pinning {
    pub accepted: Option<String>,
}

impl Pinning {
    /// Starts from the fingerprint accepted in an earlier session, if any.
    pub fn new(trusted: Option<String>) -> (r: Pinning)
        ensures
            opt_view(r.accepted) == opt_view(trusted),
    {
        Pinning { accepted: trusted }
    }

    /// Whether a certificate with `fingerprint` is trusted outright, refused,
    /// or has to be put to the user. A pinned fingerprint wins even over a
    /// failed chain validation; without a fingerprint there is nothing the
    /// user could pin.
    pub fn decide(&self, fingerprint: &Option<String>, chain_valid: bool) -> (r: CertDecision)
        ensures
            r == decision_of(opt_view(self.accepted), opt_view(*fingerprint), chain_valid),
    {
        let pinned = match (&self.accepted, fingerprint) {
            (Some(a), Some(f)) => a.eq(f),
            _ => false,
        };
        if pinned {
            CertDecision::Trusted
        } else if chain_valid {
            CertDecision::Trusted
        } else if fingerprint.is_none() {
            CertDecision::Rejected
        } else {
            CertDecision::Ask
        }
    }

    /// Records the user's answer about `fingerprint`; an acceptance pins it.
    /// Returns whether the certificate is now trusted.
    pub fn record_answer(&mut self, fingerprint: &str, accepted: bool) -> (r: bool)
        ensures
            r == accepted,
            accepted ==> opt_view(final(self).accepted) == Some(fingerprint@),
            !accepted ==> opt_view(final(self).accepted) == opt_view(old(self).accepted),
    {
        if accepted {
            self.accepted = Some(String::from_str(fingerprint));
        }
        accepted
    }
}

/// Once the user accepts a fingerprint, the same certificate is trusted from
/// then on without asking, whatever the chain validation says.
pub proof fn law_accepted_fingerprint_is_pinned(fingerprint: Seq<char>, chain_valid: bool)
    ensures
        decision_of(Some(fingerprint), Some(fingerprint), chain_valid) == CertDecision::Trusted,
{
}

/// A certificate the chain validation refuses and that has no fingerprint is
/// never trusted.
pub proof fn law_no_fingerprint_no_trust(pinned: Option<Seq<char>>)
    ensures
        decision_of(pinned, None, false) == CertDecision::Rejected,
{
}

/// A path setting that is present and not empty.
pub open spec fn given(value: Option<Seq<char>>) -> Option<Seq<char>> {
    match value {
        Some(v) => if v.len() > 0 {
            Some(v)
        } else {
            None
        },
        None => None,
    }
}

/// A path setting, unless it is missing or empty.
pub fn non_empty(value: &Option<String>) -> (r: Option<String>)
    ensures
        opt_view(r) == given(opt_view(*value)),
{
    match value {
        Some(v) => if v.unicode_len() > 0 {
            Some(v.clone())
        } else {
            None
        },
        None => None,
    }
}

/// The certificate and key files of the client identity, when both are
/// configured; a half-configured identity is ignored.
pub fn client_identity(options: &TlsOptions) -> (r: Option<(String, String)>)
    ensures
        match (given(opt_view(options.client_cert)), given(opt_view(options.client_key))) {
            (Some(c), Some(k)) => r matches Some(p) && p.0@ == c && p.1@ == k,
            _ => r is None,
        },
{
    match (non_empty(&options.client_cert), non_empty(&options.client_key)) {
        (Some(c), Some(k)) => Some((c, k)),
        _ => None,
    }
}

/// A client certificate file must hold at least one certificate: the error
/// when the one at `cert_path` holds `count` of them.
pub fn missing_certificate(cert_path: &str, count: usize) -> (r: Option<Error>)
    ensures
        count == 0 ==> (r matches Some(e) && e@ == ErrorView::Config(
            "no certificate found in "@ + cert_path@,
        )),
        count > 0 ==> r is None,
{
    if count == 0 {
        let mut out = chars_of("no certificate found in ");
        push_str(&mut out, cert_path);
        Some(Error::Config(string_of(&out)))
    } else {
        None
    }
}

/// A client key file must hold a private key: the key read from the one at
/// `key_path`, or the error when it holds none.
pub fn require_key<K>(key_path: &str, key: Option<K>) -> (r: Result<K, Error>)
    ensures
        key matches Some(k) ==> r matches Ok(x) && x == k,
        key is None ==> (r matches Err(e) && e@ == ErrorView::Config(
            "no private key found in "@ + key_path@,
        )),
{
    match key {
        Some(k) => Ok(k),
        None => {
            let mut out = chars_of("no private key found in ");
            push_str(&mut out, key_path);
            Err(Error::Config(string_of(&out)))
        },
    }
}

} // verus!
