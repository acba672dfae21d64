use gp_client::error::Error;
use gp_client::tls::{
    certificate_details, client_identity, details_of, fingerprint_of_key, missing_certificate, require_key, prompt_details, public_key_fingerprint, CertDecision, Pinning,
    TlsOptions,
};

/// GlobalSign Root CA - R3, a self-signed certificate.
const CERTIFICATE: &str = "-----BEGIN CERTIFICATE-----\nMIIDXzCCAkegAwIBAgILBAAAAAABIVhTCKIwDQYJKoZIhvcNAQELBQAwTDEgMB4G\nA1UECxMXR2xvYmFsU2lnbiBSb290IENBIC0gUjMxEzARBgNVBAoTCkdsb2JhbFNp\nZ24xEzARBgNVBAMTCkdsb2JhbFNpZ24wHhcNMDkwMzE4MTAwMDAwWhcNMjkwMzE4\nMTAwMDAwWjBMMSAwHgYDVQQLExdHbG9iYWxTaWduIFJvb3QgQ0EgLSBSMzETMBEG\nA1UEChMKR2xvYmFsU2lnbjETMBEGA1UEAxMKR2xvYmFsU2lnbjCCASIwDQYJKoZI\nhvcNAQEBBQADggEPADCCAQoCggEBAMwldpB5BngiFvXAg7aEyiie/QV2EcWtiHL8\nRgJDx7KKnQRfJMsuS+FggkbhUqsMgUdwbN1k0ev1LKMPgj0MK66X17YUhhB5uzsT\ngHeMCOFJ0mpiLx9e+pZo34knlTifBtc+ycsmWQ1z3rDI6SYOgxXG71uL0gRgykmm\nKPZpO/bLyCiR5Z2KYVc3rHQU3HTgOu5yLy6c+9C7v/U9AOEGM+iCK65TpjoWc4zd\nQQ4gOsC0p6Hpsk+QLjJg6VfLuQSSaGjlOCZgdbKfd/+RFO+uIEn8rUAVSNECMWEZ\nXriX7613t2Saer9fwRPvm2L7DWzgVGkWqQPabumDk3F2xmmFghcCAwEAAaNCMEAw\nDgYDVR0PAQH/BAQDAgEGMA8GA1UdEwEB/wQFMAMBAf8wHQYDVR0OBBYEFI/wS3+o\nLkUkrk1Q+mOai97i3Ru8MA0GCSqGSIb3DQEBCwUAA4IBAQBLQNvAUKr+yAzv95ZU\nRUm7lgAJQayzE4aGKAczymvmdLm6AC2upArT9fHxD4q/c2dKg8dEe3jgr25sbwMp\njjM5RcOO5LlXbKr8EpbsU8Yt5CRsuZRj+9xTaGdWPoO4zzUhw8lo/s7awlOqzJCK\n6fBdRoyV3XpYKBovHd7NADdBj+1EbddTKJd+82cEHhXXipa0095MJ6RMG3NzdvQX\nmcIfeg7jLQitChws/zyrVQ4PkX4268NXSb7hLi18YIvDQVETI53O9zJrlAGomecs\nMx86OyXShkDOOyyGeMlhLxS67ttVb9+E7gUJTb0o2HLO02JQZR7rkpeDMdmztcpH\nWD9f\n-----END CERTIFICATE-----";

fn der() -> Vec<u8> {
    let mut reader = CERTIFICATE.as_bytes();
    let certs: Vec<_> = rustls_pemfile::certs(&mut reader).collect::<Result<Vec<_>, _>>().unwrap();
    certs[0].as_ref().to_vec()
}

#[test]
fn fingerprint_uses_openconnect_pin_format() {
    let fingerprint = public_key_fingerprint(&der()).unwrap();
    assert!(fingerprint.starts_with("pin-sha256:"));
    // 32 raw bytes base64-encode to 44 characters including padding.
    assert_eq!(fingerprint.len(), "pin-sha256:".len() + 44);
}

#[test]
fn the_fingerprint_hashes_the_public_key_not_the_certificate() {
    assert_eq!(
        public_key_fingerprint(&der()).unwrap(),
        "pin-sha256:cGuxAXyFXFkWm61cF4HPWX8S0srS9j0aSqN0k4AP+4A="
    );
}

#[test]
fn bytes_that_are_no_certificate_have_no_fingerprint() {
    assert_eq!(public_key_fingerprint(b"not a certificate"), None);
}

#[test]
fn a_key_fingerprint_is_the_base64_of_its_sha256() {
    // SHA-256 of the empty string.
    assert_eq!(fingerprint_of_key(b""), "pin-sha256:47DEQpj8HBSa+/TImW+5JCeuQeRkm5NMpJWZG3hSuFU=");
}

#[test]
fn a_pinned_fingerprint_is_trusted_without_asking() {
    let pinning = Pinning::new(Some("pin-sha256:abc".to_string()));
    assert_eq!(pinning.decide(&Some("pin-sha256:abc".to_string()), false), CertDecision::Trusted);
    assert_eq!(pinning.decide(&Some("pin-sha256:other".to_string()), false), CertDecision::Ask);
    assert_eq!(pinning.decide(&Some("pin-sha256:other".to_string()), true), CertDecision::Trusted);
    assert_eq!(pinning.decide(&None, false), CertDecision::Rejected);
}

#[test]
fn an_accepted_fingerprint_is_pinned_from_then_on() {
    let mut pinning = Pinning::new(None);
    assert!(!pinning.record_answer("pin-sha256:x", false));
    assert_eq!(pinning.decide(&Some("pin-sha256:x".to_string()), false), CertDecision::Ask);
    assert!(pinning.record_answer("pin-sha256:x", true));
    assert_eq!(pinning.decide(&Some("pin-sha256:x".to_string()), false), CertDecision::Trusted);
}

#[test]
fn prompt_details_put_the_rejection_first() {
    assert_eq!(prompt_details("invalid peer certificate", ""), "invalid peer certificate");
    assert_eq!(prompt_details("bad", "Subject: x"), "bad\n\nSubject: x");
}

#[test]
fn a_client_identity_needs_both_files() {
    let mut options = TlsOptions::default();
    options.client_cert = Some("/c.pem".to_string());
    assert!(client_identity(&options).is_none());
    options.client_key = Some(String::new());
    assert!(client_identity(&options).is_none());
    options.client_key = Some("/k.pem".to_string());
    assert_eq!(client_identity(&options), Some(("/c.pem".to_string(), "/k.pem".to_string())));
}

#[test]
fn the_prompt_shows_the_certificate_subject_issuer_and_validity() {
    let details = certificate_details(&der());
    let name = "OU=GlobalSign Root CA - R3, O=GlobalSign, CN=GlobalSign";
    assert!(details.starts_with(&format!("Subject: {name}\nIssuer: {name}\nValid: ")));
    assert!(details.contains("2009"));
    assert!(details.contains(" - "));
    assert!(details.ends_with("2029 +00:00"));
}

#[test]
fn bytes_that_are_no_certificate_have_no_details() {
    assert_eq!(certificate_details(b"not a certificate"), "");
}

#[test]
fn details_are_laid_out_one_field_per_line() {
    let fields = Some(("CN=a".to_string(), "CN=b".to_string(), "then".to_string(), "later".to_string()));
    assert_eq!(details_of(fields), "Subject: CN=a\nIssuer: CN=b\nValid: then - later");
    assert_eq!(details_of(None), "");
}

#[test]
fn a_client_identity_needs_a_certificate_and_a_key() {
    assert!(matches!(missing_certificate("c.pem", 0), Some(Error::Config(m)) if m == "no certificate found in c.pem"));
    assert!(missing_certificate("c.pem", 2).is_none());
    assert!(matches!(require_key("k.pem", None::<u8>), Err(Error::Config(m)) if m == "no private key found in k.pem"));
    assert!(matches!(require_key("k.pem", Some(7u8)), Ok(7)));
}
