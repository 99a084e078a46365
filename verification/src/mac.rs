//! Keyed-hash primitives: HMAC-SHA-256 for outbound request signing and
//! HMAC-SHA-1 for inbound webhook verification.
//!
//! The digests themselves are computed by the `hmac`, `sha2` and `sha1`
//! crates; this module names their results and states only what those crates
//! document: the digest is a function of key and message alone, and has a
//! fixed width (32 bytes for SHA-256, 20 for SHA-1).

use hmac::Mac;
use vstd::prelude::*;

verus! {

/// The HMAC-SHA-256 digest of `msg` under `key`.
pub uninterp spec fn hmac_sha256_of(key: Seq<u8>, msg: Seq<u8>) -> Seq<u8>;

/// The HMAC-SHA-1 digest of `msg` under `key`.
pub uninterp spec fn hmac_sha1_of(key: Seq<u8>, msg: Seq<u8>) -> Seq<u8>;

/// Relies on `hmac::Hmac<sha2::Sha256>`: `new_from_slice` accepts a key of
/// any length, and the finalized digest is a 32-byte function of key and
/// message alone.
#[verifier::external_body]
pub fn hmac_sha256(key: &[u8], msg: &[u8]) -> (r: Vec<u8>)
    ensures
        r@ == hmac_sha256_of(key@, msg@),
        r@.len() == 32,
{
    let mut m = <hmac::Hmac<sha2::Sha256> as hmac::KeyInit>::new_from_slice(key)
        .expect("HMAC accepts keys of any length");
    m.update(msg);
    m.finalize().into_bytes().to_vec()
}

/// Relies on `hmac::Hmac<sha1::Sha1>`: `new_from_slice` accepts a key of any
/// length, and the finalized digest is a 20-byte function of key and message
/// alone.
#[verifier::external_body]
pub fn hmac_sha1(key: &[u8], msg: &[u8]) -> (r: Vec<u8>)
    ensures
        r@ == hmac_sha1_of(key@, msg@),
        r@.len() == 20,
{
    let mut m = <hmac::Hmac<sha1::Sha1> as hmac::KeyInit>::new_from_slice(key)
        .expect("HMAC accepts keys of any length");
    m.update(msg);
    m.finalize().into_bytes().to_vec()
}

} // verus!
