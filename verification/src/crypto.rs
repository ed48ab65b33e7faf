//! Trusted wrappers around the SHA-256 and HMAC-SHA-256 primitives of the
//! `hmac-sha256` crate.
//!
//! Both digests are pure functions of their byte arguments, so their
//! results are only given names here; every contract that mentions a
//! digest speaks of these names.

use vstd::prelude::*;

verus! {

/// The SHA-256 digest of a byte sequence.
pub uninterp spec fn sha256_of(data: Seq<u8>) -> Seq<u8>;

/// The HMAC-SHA-256 of a message under a key.
pub uninterp spec fn hmac_sha256_of(key: Seq<u8>, data: Seq<u8>) -> Seq<u8>;

/// Relies on `hmac_sha256::Hash::hash`: the SHA-256 digest of the input,
/// a 32-byte value that depends on the input bytes alone.
#[verifier::external_body]
pub(crate) fn sha256_digest(data: &[u8]) -> (r: Vec<u8>)
    ensures
        r@ == sha256_of(data@),
        r@.len() == 32,
{
    hmac_sha256::Hash::hash(data).to_vec()
}

/// Relies on `hmac_sha256::HMAC::mac`: the HMAC-SHA-256 of the message
/// under the key, a 32-byte value that depends on the two byte arguments
/// alone.
#[verifier::external_body]
pub(crate) fn hmac_sha256_mac(key: &[u8], data: &[u8]) -> (r: Vec<u8>)
    ensures
        r@ == hmac_sha256_of(key@, data@),
        r@.len() == 32,
{
    hmac_sha256::HMAC::mac(data, key).to_vec()
}

} // verus!
