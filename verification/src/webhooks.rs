//! The inbound webhook verifier and the webhook payload data structures.
//!
//! A webhook delivery carries a hex-encoded HMAC-SHA-1 digest of its raw
//! body.  Verification hex-decodes the provided signature, recomputes the
//! digest over the raw received bytes — never a re-serialized form — under
//! the shared secret, and compares the two with a constant-time byte
//! comparison, so that the time taken reveals nothing about where the first
//! mismatching byte lies.

use vstd::prelude::*;

verus! {

use vstd::utf8::encode_utf8;
use crate::codec::{valid_hex, hex_bytes_of, hex_chars, hex_decode, lemma_hex_round_trip};
use crate::mac::{hmac_sha1_of, hmac_sha1};

/// The reason a webhook delivery was rejected.
#[derive(Debug, Clone, Copy, PartialEq, Eq, Structural)]
pub enum WebhookVerifyError {
    /// The provided signature is not valid hexadecimal.
    InvalidHex,
    /// The computed digest does not equal the provided one.
    SignatureMismatch,
}

impl WebhookVerifyError {
    /// A short description of the rejection reason.
    pub fn message(&self) -> (r: &'static str)
        ensures
            *self == WebhookVerifyError::InvalidHex ==> r@ == "Invalid hex in signature"@,
            *self == WebhookVerifyError::SignatureMismatch ==> r@ == "Invalid signature"@,
    {
        match self {
            WebhookVerifyError::InvalidHex => "Invalid hex in signature",
            WebhookVerifyError::SignatureMismatch => "Invalid signature",
        }
    }
}

/// True exactly when a webhook delivery is accepted: the provided signature
/// is decodable hexadecimal and decodes to the HMAC-SHA-1 digest of the raw
/// payload under the secret key.
pub open spec fn webhook_accepts(key: Seq<u8>, payload: Seq<u8>, signature: Seq<char>) -> bool {
    valid_hex(signature) && hex_bytes_of(signature) == hmac_sha1_of(key, payload)
}

/// The complete verdict on a webhook delivery.  Verification is a pure
/// function of key, payload and signature: stateless, idempotent, and
/// deterministic.
pub open spec fn webhook_verdict(key: Seq<u8>, payload: Seq<u8>, signature: Seq<char>) -> Result<
    (),
    WebhookVerifyError,
> {
    if !valid_hex(signature) {
        Err(WebhookVerifyError::InvalidHex)
    } else if hex_bytes_of(signature) != hmac_sha1_of(key, payload) {
        Err(WebhookVerifyError::SignatureMismatch)
    } else {
        Ok(())
    }
}

/// Compares two byte strings of equal length without leaking, through its
/// running time, the position of the first difference: every byte pair is
/// visited, and the verdict is drawn once at the end.
fn constant_time_eq(a: &[u8], b: &[u8]) -> (r: bool)
    requires
        a@.len() == b@.len(),
    ensures
        r == (a@ == b@),
{
    let n = a.len();
    let mut acc: u8 = 0;
    for i in 0..n
        invariant
            n == a@.len(),
            n == b@.len(),
            (acc == 0) <==> (forall|j: int| 0 <= j < i ==> a@[j] == b@[j]),
    {
        let d = a[i] ^ b[i];
        proof {
            let x = acc;
            let y = d;
            assert((x | y == 0) == (x == 0 && y == 0)) by (bit_vector);
            let p = a@[i as int];
            let q = b@[i as int];
            assert((p ^ q == 0) == (p == q)) by (bit_vector);
        }
        acc = acc | d;
    }
    if acc == 0 {
        proof {
            assert(a@ =~= b@);
        }
        true
    } else {
        false
    }
}

/// Verifies a webhook signature against the raw payload bytes.
///
/// Returns `Ok(())` exactly when the signature is valid hexadecimal and
/// decodes to the HMAC-SHA-1 digest of the payload under the secret key;
/// otherwise the error names the first reason that failed: the hexadecimal
/// form, or the digest comparison.
pub fn verify_signature(secret_key: &str, payload: &[u8], signature: &str) -> (r: Result<
    (),
    WebhookVerifyError,
>)
    ensures
        r == webhook_verdict(encode_utf8(secret_key@), payload@, signature@),
        r is Ok <==> webhook_accepts(encode_utf8(secret_key@), payload@, signature@),
{
    let decoded = match hex_decode(signature) {
        Ok(d) => d,
        Err(_) => {
            return Err(WebhookVerifyError::InvalidHex);
        },
    };
    let digest = hmac_sha1(secret_key.as_bytes(), payload);
    if decoded.len() != digest.len() {
        return Err(WebhookVerifyError::SignatureMismatch);
    }
    if constant_time_eq(digest.as_slice(), decoded.as_slice()) {
        Ok(())
    } else {
        Err(WebhookVerifyError::SignatureMismatch)
    }
}

/// A verifier accepts what the same construction signed: the hex rendering
/// of the HMAC-SHA-1 digest of a payload under a key verifies against that
/// payload and key.
pub proof fn lemma_accepts_own_signature(key: Seq<u8>, payload: Seq<u8>)
    ensures
        webhook_accepts(key, payload, hex_chars(hmac_sha1_of(key, payload))),
{
    lemma_hex_round_trip(hmac_sha1_of(key, payload));
}

/// A signature computed for one payload verifies against another payload
/// only if the two payloads' digests under the key collide: tampering with a
/// signed payload is caught unless it produces an HMAC-SHA-1 collision.
pub proof fn lemma_tampered_payload_needs_collision(
    key: Seq<u8>,
    signed_payload: Seq<u8>,
    presented_payload: Seq<u8>,
)
    ensures
        webhook_accepts(key, presented_payload, hex_chars(hmac_sha1_of(key, signed_payload)))
            <==> hmac_sha1_of(key, presented_payload) == hmac_sha1_of(key, signed_payload),
{
    lemma_hex_round_trip(hmac_sha1_of(key, signed_payload));
}

/// A signature with any character outside the hexadecimal alphabet is
/// rejected outright, whatever the key and payload, and with the encoding
/// reason rather than a mismatch reason.
pub proof fn lemma_malformed_signature_rejected(
    key: Seq<u8>,
    payload: Seq<u8>,
    signature: Seq<char>,
    i: int,
)
    requires
        0 <= i < signature.len(),
        !crate::codec::is_hex_digit(signature[i]),
    ensures
        !webhook_accepts(key, payload, signature),
        webhook_verdict(key, payload, signature) == Err::<(), WebhookVerifyError>(
            WebhookVerifyError::InvalidHex,
        ),
{
}

/// The different kinds of webhook payload.
#[derive(Debug)]
pub enum WebhookPayload {
    ApplicantReviewed(ApplicantReviewedPayload),
    ApplicantPending(ApplicantPendingPayload),
}

/// The payload of an `applicantReviewed` webhook.
#[derive(Debug)]
pub struct ApplicantReviewedPayload {
    pub applicant_id: String,
    pub inspection_id: String,
    pub correlation_id: String,
    pub level_name: String,
    pub external_user_id: Option<String>,
    pub review: WebhookReview,
    pub created_at: String,
    pub applicant_type: String,
}

/// The payload of an `applicantPending` webhook.
#[derive(Debug)]
pub struct ApplicantPendingPayload {
    pub applicant_id: String,
    pub inspection_id: String,
    pub correlation_id: String,
    pub level_name: String,
    pub external_user_id: Option<String>,
    pub created_at: String,
}

/// The review section of a webhook payload.
#[derive(Debug)]
pub struct WebhookReview {
    pub review_id: String,
    pub attempt_id: String,
    pub attempt_cnt: i32,
    pub elapsed_since_pending_ms: i64,
    pub create_date: String,
    pub review_status: String,
    pub review_result: Option<WebhookReviewResult>,
}

/// The review result section of a webhook payload.
#[derive(Debug)]
pub struct WebhookReviewResult {
    pub review_answer: String,
    pub reject_labels: Option<Vec<String>>,
    pub moderation_comment: Option<String>,
    pub client_comment: Option<String>,
    pub review_reject_type: Option<String>,
}

} // verus!
