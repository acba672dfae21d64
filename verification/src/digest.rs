//! SHA-256 and base64, from the `sha2` and `base64` crates.
use base64::Engine;
use sha2::Digest;
use vstd::prelude::*;

verus! {

/// The SHA-256 digest of a byte string.
pub uninterp spec fn sha256_digest(data: Seq<u8>) -> Seq<u8>;

/// The standard, padded base64 encoding of a byte string.
pub uninterp spec fn base64_standard(data: Seq<u8>) -> Seq<char>;

/// Calls `sha2::Sha256::digest`. The contract names the digest of the input
/// and states its length, 32 bytes, which is what SHA-256 always produces; it
/// says nothing else of the hash function.
#[verifier::external_body]
pub fn sha256(data: &[u8]) -> (r: Vec<u8>)
    ensures
        r@ == sha256_digest(data@),
        r@.len() == 32,
{
    sha2::Sha256::digest(data).to_vec()
}

/// Calls `base64::engine::general_purpose::STANDARD.encode`: RFC 4648 base64
/// with the standard alphabet and `=` padding. The contract names the
/// encoding of the input and states its length, four characters for every
/// started group of three bytes.
#[verifier::external_body]
pub fn base64_encode(data: &[u8]) -> (r: String)
    ensures
        r@ == base64_standard(data@),
        r@.len() == (data@.len() + 2) / 3 * 4,
{
    base64::engine::general_purpose::STANDARD.encode(data)
}

} // verus!
