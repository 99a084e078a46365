//! Tests of the outbound request signer.

use hmac::{Hmac, KeyInit, Mac};
use sha2::Sha256;
use sumsub_api::signing::{
    build_auth_headers, header_access_signature, header_access_timestamp, header_app_token,
    join_ndjson_lines, json_content_type, ndjson_content_type, sign_request,
};
use sumsub_api::text::decimal_string;

#[test]
fn signing_is_deterministic() {
    let body = Some(String::from(r#"{"externalUserId":"user-1"}"#));
    let s1 = sign_request("my_secret_key", 1234567890, "POST", "/resources/applicants", &body);
    let s2 = sign_request("my_secret_key", 1234567890, "POST", "/resources/applicants", &body);
    assert_eq!(s1, s2);
}

#[test]
fn signature_matches_known_answer_with_body() {
    // HMAC-SHA-256 of "1234567890POST/resources/applicants?levelName=basic-kyc"
    // followed by the body bytes, under "my_secret_key", precomputed.
    let body = Some(String::from(r#"{"externalUserId":"user-1"}"#));
    let sig = sign_request(
        "my_secret_key",
        1234567890,
        "POST",
        "/resources/applicants?levelName=basic-kyc",
        &body,
    );
    assert_eq!(sig, "9b67eadfdbae8770a0d7d768ba22ec5cdbbb92ad28576d7256f9f8f7291826b9");
}

#[test]
fn signature_matches_known_answer_without_body() {
    let sig = sign_request("my_secret_key", 1234567890, "GET", "/resources/applicants/123/one", &None);
    assert_eq!(sig, "f64724477b976d22f837c5ebbfb3c9ffa3adfd39bef1e11faab4ebeec8a14007");
}

#[test]
fn signature_matches_independent_computation() {
    let body = Some(String::from(r#"{"a":1}"#));
    let sig = sign_request("k", 42, "PATCH", "/resources/kyt/txns/7/data/info", &body);

    let mut mac = <Hmac<Sha256> as KeyInit>::new_from_slice(b"k").unwrap();
    mac.update(b"42");
    mac.update(b"PATCH");
    mac.update(b"/resources/kyt/txns/7/data/info");
    mac.update(br#"{"a":1}"#);
    let expected = hex::encode(mac.finalize().into_bytes());
    assert_eq!(sig, expected);
}

#[test]
fn signature_is_sensitive_to_every_field() {
    let key = "my_secret_key";
    let body = Some(String::from(r#"{"externalUserId":"user-1"}"#));
    let base = sign_request(key, 1234567890, "POST", "/resources/applicants", &body);

    // One perturbation per field; each must change the signature.
    let other_ts = sign_request(key, 1234567891, "POST", "/resources/applicants", &body);
    assert_ne!(base, other_ts);

    let other_method = sign_request(key, 1234567890, "PUST", "/resources/applicants", &body);
    assert_ne!(base, other_method);

    let other_path = sign_request(key, 1234567890, "POST", "/resources/applicantz", &body);
    assert_ne!(base, other_path);

    let other_body = Some(String::from(r#"{"externalUserId":"user-2"}"#));
    let changed_body = sign_request(key, 1234567890, "POST", "/resources/applicants", &other_body);
    assert_ne!(base, changed_body);

    let other_key = sign_request("my_secret_kez", 1234567890, "POST", "/resources/applicants", &body);
    assert_ne!(base, other_key);
}

#[test]
fn signature_is_lowercase_hex_of_fixed_width() {
    let sig = sign_request("key", 7, "GET", "/health", &None);
    assert_eq!(sig.len(), 64);
    assert!(sig.chars().all(|c| c.is_ascii_hexdigit() && !c.is_ascii_uppercase()));
}

#[test]
fn auth_headers_carry_token_signature_and_timestamp() {
    let body = None;
    let h = build_auth_headers("app-token-1", "my_secret_key", 1234567890, "GET", "/resources/status/api", &body);
    assert_eq!(h.app_token, "app-token-1");
    assert_eq!(h.timestamp, "1234567890");
    let sig = sign_request("my_secret_key", 1234567890, "GET", "/resources/status/api", &body);
    assert_eq!(h.signature, sig);
}

#[test]
fn header_names_match_the_wire_protocol() {
    assert_eq!(header_app_token(), "X-App-Token");
    assert_eq!(header_access_signature(), "X-App-Access-Sig");
    assert_eq!(header_access_timestamp(), "X-App-Access-Ts");
    assert_eq!(json_content_type(), "application/json");
    assert_eq!(ndjson_content_type(), "application/x-ndjson");
}

#[test]
fn timestamps_render_in_decimal() {
    assert_eq!(decimal_string(0), "0");
    assert_eq!(decimal_string(7), "7");
    assert_eq!(decimal_string(1234567890), "1234567890");
    assert_eq!(decimal_string(u64::MAX), "18446744073709551615");
}

#[test]
fn ndjson_lines_join_with_single_separators() {
    let lines: Vec<String> = vec![];
    assert_eq!(join_ndjson_lines(&lines), "");

    let lines = vec![String::from(r#"{"a":1}"#)];
    assert_eq!(join_ndjson_lines(&lines), r#"{"a":1}"#);

    let lines = vec![
        String::from(r#"{"a":1}"#),
        String::from(r#"{"b":2}"#),
        String::from(r#"{"c":3}"#),
    ];
    assert_eq!(join_ndjson_lines(&lines), "{\"a\":1}\n{\"b\":2}\n{\"c\":3}");
}

#[test]
fn absent_and_empty_body_sign_alike() {
    // The signed material has no separators: an absent body and a present but
    // empty body contribute the same (no) bytes.
    let empty = Some(String::new());
    let with_empty = sign_request("k", 1, "GET", "/p", &empty);
    let without = sign_request("k", 1, "GET", "/p", &None);
    assert_eq!(with_empty, without);
}
