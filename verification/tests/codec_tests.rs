//! Tests of the hex codec.

use sumsub_api::codec::{hex_decode, hex_encode, HexDecodeError};

#[test]
fn encodes_known_bytes_lowercase() {
    assert_eq!(hex_encode(&[0xbe, 0xef]), "beef");
    assert_eq!(hex_encode(&[0x00, 0x01, 0x0a, 0xff]), "00010aff");
    assert_eq!(hex_encode(&[]), "");
}

#[test]
fn decodes_known_strings() {
    assert_eq!(hex_decode("beef"), Ok(vec![0xbe, 0xef]));
    assert_eq!(hex_decode(""), Ok(vec![]));
    assert_eq!(hex_decode("00010aff"), Ok(vec![0x00, 0x01, 0x0a, 0xff]));
}

#[test]
fn decodes_uppercase_and_mixed_case() {
    assert_eq!(hex_decode("BEEF"), Ok(vec![0xbe, 0xef]));
    assert_eq!(hex_decode("BeEf"), Ok(vec![0xbe, 0xef]));
}

#[test]
fn round_trips_hmac_output_widths() {
    // 20 bytes, the HMAC-SHA-1 width.
    let twenty: Vec<u8> = (0u8..20).map(|i| i.wrapping_mul(13).wrapping_add(7)).collect();
    assert_eq!(hex_decode(&hex_encode(&twenty)), Ok(twenty.clone()));
    assert_eq!(hex_encode(&twenty).len(), 40);

    // 32 bytes, the HMAC-SHA-256 width.
    let thirty_two: Vec<u8> = (0u8..32).map(|i| i.wrapping_mul(29).wrapping_add(3)).collect();
    assert_eq!(hex_decode(&hex_encode(&thirty_two)), Ok(thirty_two.clone()));
    assert_eq!(hex_encode(&thirty_two).len(), 64);
}

#[test]
fn rejects_odd_length() {
    assert_eq!(hex_decode("abc"), Err(HexDecodeError::OddLength));
    assert_eq!(hex_decode("a"), Err(HexDecodeError::OddLength));
}

#[test]
fn rejects_non_hex_characters() {
    assert_eq!(hex_decode("zz"), Err(HexDecodeError::InvalidCharacter));
    assert_eq!(hex_decode("0g"), Err(HexDecodeError::InvalidCharacter));
    assert_eq!(hex_decode("a b "), Err(HexDecodeError::InvalidCharacter));
    assert_eq!(hex_decode("抱b"), Err(HexDecodeError::InvalidCharacter));
}

#[test]
fn agrees_with_reference_codec() {
    let bytes: Vec<u8> = (0u8..=255).collect();
    assert_eq!(hex_encode(&bytes), hex::encode(&bytes));
    assert_eq!(hex_decode(&hex::encode(&bytes)), Ok(bytes));
}
