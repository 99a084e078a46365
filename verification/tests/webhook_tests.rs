//! Tests of the inbound webhook verifier.

use hmac::{Hmac, KeyInit, Mac};
use sha1::Sha1;
use sumsub_api::webhooks::{self, WebhookVerifyError};

/// Computes the hex-encoded HMAC-SHA-1 signature the service would attach.
fn generate_webhook_signature(secret_key: &str, payload: &str) -> String {
    let mut mac = <Hmac<Sha1> as KeyInit>::new_from_slice(secret_key.as_bytes())
        .expect("Failed to create HMAC-SHA1 instance");
    mac.update(payload.as_bytes());
    let result = mac.finalize();
    let code_bytes = result.into_bytes();
    hex::encode(code_bytes)
}

#[test]
fn test_webhook_signature_verification() {
    let secret_key = "my_secret_key";
    let payload = r#"{"type": "applicantReviewed", "applicantId": "..."}"#;

    let signature = generate_webhook_signature(secret_key, payload);

    let result = webhooks::verify_signature(secret_key, payload.as_bytes(), &signature);
    assert!(result.is_ok());

    let invalid_signature = "invalid_signature";
    let result = webhooks::verify_signature(secret_key, payload.as_bytes(), invalid_signature);
    assert!(result.is_err());

    let invalid_payload = r#"{"type": "applicantReviewed", "applicantId": "different"}"#;
    let result = webhooks::verify_signature(secret_key, invalid_payload.as_bytes(), &signature);
    assert!(result.is_err());
}

#[test]
fn accepts_known_signature() {
    // HMAC-SHA-1 of the payload under "my_secret_key", precomputed.
    let payload = r#"{"type": "applicantReviewed", "applicantId": "..."}"#;
    let signature = "2b5ca8408ce8e43caaeeaf3a046459e5a77409ff";
    let result = webhooks::verify_signature("my_secret_key", payload.as_bytes(), signature);
    assert_eq!(result, Ok(()));
}

#[test]
fn accepts_uppercase_signature() {
    let payload = r#"{"type": "applicantReviewed", "applicantId": "..."}"#;
    let signature = "2B5CA8408CE8E43CAAEEAF3A046459E5A77409FF";
    let result = webhooks::verify_signature("my_secret_key", payload.as_bytes(), signature);
    assert_eq!(result, Ok(()));
}

#[test]
fn rejects_tampered_payload_as_mismatch() {
    let payload = r#"{"type": "applicantReviewed", "applicantId": "..."}"#;
    let signature = generate_webhook_signature("my_secret_key", payload);

    // Flip one byte of the payload; the original signature must stop verifying.
    let mut tampered = payload.as_bytes().to_vec();
    tampered[0] ^= 0x01;
    let result = webhooks::verify_signature("my_secret_key", &tampered, &signature);
    assert_eq!(result, Err(WebhookVerifyError::SignatureMismatch));
}

#[test]
fn rejects_non_hex_signature_with_encoding_reason() {
    let payload = b"payload";
    let result = webhooks::verify_signature(
        "my_secret_key",
        payload,
        "zzzzzzzzzzzzzzzzzzzzzzzzzzzzzzzzzzzzzzzz",
    );
    assert_eq!(result, Err(WebhookVerifyError::InvalidHex));
}

#[test]
fn rejects_odd_length_signature_with_encoding_reason() {
    let payload = b"payload";
    let result = webhooks::verify_signature("my_secret_key", payload, "abc");
    assert_eq!(result, Err(WebhookVerifyError::InvalidHex));
}

#[test]
fn rejects_wrong_length_signature_as_mismatch() {
    // Valid hexadecimal, but not 20 bytes: a mismatch, not an encoding error.
    let payload = b"payload";
    let result = webhooks::verify_signature("my_secret_key", payload, "abcd");
    assert_eq!(result, Err(WebhookVerifyError::SignatureMismatch));
}

#[test]
fn rejects_wrong_key() {
    let payload = r#"{"type": "applicantReviewed", "applicantId": "..."}"#;
    let signature = generate_webhook_signature("my_secret_key", payload);
    let result = webhooks::verify_signature("another_key", payload.as_bytes(), &signature);
    assert_eq!(result, Err(WebhookVerifyError::SignatureMismatch));
}

#[test]
fn verification_is_idempotent() {
    let payload = r#"{"type": "applicantReviewed", "applicantId": "..."}"#;
    let signature = generate_webhook_signature("my_secret_key", payload);
    let first = webhooks::verify_signature("my_secret_key", payload.as_bytes(), &signature);
    let second = webhooks::verify_signature("my_secret_key", payload.as_bytes(), &signature);
    assert_eq!(first, second);
    assert!(first.is_ok());
}

#[test]
fn error_messages_name_the_reason() {
    assert_eq!(WebhookVerifyError::InvalidHex.message(), "Invalid hex in signature");
    assert_eq!(WebhookVerifyError::SignatureMismatch.message(), "Invalid signature");
}
