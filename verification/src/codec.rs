//! The shared hex codec: raw bytes to lowercase hexadecimal and back.
//!
//! Encoding always produces lowercase digits.  Decoding accepts both cases,
//! and rejects any input with a character outside the hexadecimal alphabet or
//! with an odd number of characters.

use vstd::prelude::*;

verus! {

use crate::text::{is_ascii_bytes, ascii_to_string};

/// True when `c` is a hexadecimal digit, in either case.
pub open spec fn is_hex_digit(c: char) -> bool {
    ('0' <= c <= '9') || ('A' <= c <= 'F') || ('a' <= c <= 'f')
}

/// The numeric value of a hexadecimal digit character.
pub open spec fn hex_digit_value(c: char) -> u8
    recommends
        is_hex_digit(c),
{
    if '0' <= c <= '9' {
        ((c as u32) - 48) as u8
    } else if 'A' <= c <= 'F' {
        ((c as u32) - 55) as u8
    } else {
        ((c as u32) - 87) as u8
    }
}

/// The lowercase hexadecimal digit character for a value below sixteen.
pub open spec fn hex_digit_char(v: u8) -> char
    recommends
        v < 16,
{
    if v < 10 {
        ((48 + v) as u8) as char
    } else {
        ((87 + v) as u8) as char
    }
}

/// The lowercase hexadecimal rendering of a byte sequence: two digit
/// characters per byte, high nibble first.
pub open spec fn hex_chars(bytes: Seq<u8>) -> Seq<char> {
    Seq::new(
        2 * bytes.len(),
        |i: int|
            if i % 2 == 0 {
                hex_digit_char(bytes[i / 2] >> 4)
            } else {
                hex_digit_char(bytes[i / 2] & 0x0f)
            },
    )
}

/// True when the character sequence is decodable hexadecimal: even length,
/// hexadecimal digits throughout.
pub open spec fn valid_hex(s: Seq<char>) -> bool {
    s.len() % 2 == 0 && forall|i: int| 0 <= i < s.len() ==> is_hex_digit(#[trigger] s[i])
}

/// The bytes encoded by a hexadecimal character sequence.
pub open spec fn hex_bytes_of(s: Seq<char>) -> Seq<u8>
    recommends
        valid_hex(s),
{
    Seq::new(
        s.len() / 2,
        |i: int| (16 * hex_digit_value(s[2 * i]) + hex_digit_value(s[2 * i + 1])) as u8,
    )
}

/// The reason a hexadecimal string was rejected by [`hex_decode`].
#[derive(Debug, Clone, Copy, PartialEq, Eq, Structural)]
pub enum HexDecodeError {
    /// The input holds a character outside the hexadecimal alphabet.
    InvalidCharacter,
    /// The input has an odd number of characters.
    OddLength,
}

/// A hexadecimal digit character decodes to the value it was encoded from.
proof fn lemma_hex_digit_round_trip(v: u8)
    requires
        v < 16,
    ensures
        is_hex_digit(hex_digit_char(v)),
        hex_digit_value(hex_digit_char(v)) == v,
{
}

/// Hex-encoding then hex-decoding returns the original bytes, for byte
/// strings of every length.
pub proof fn lemma_hex_round_trip(bytes: Seq<u8>)
    ensures
        valid_hex(hex_chars(bytes)),
        hex_bytes_of(hex_chars(bytes)) == bytes,
{
    let s = hex_chars(bytes);
    assert forall|i: int| 0 <= i < s.len() implies is_hex_digit(#[trigger] s[i]) by {
        let b = bytes[i / 2];
        assert(b >> 4 < 16 && b & 0x0f < 16) by (bit_vector);
        if i % 2 == 0 {
            lemma_hex_digit_round_trip(b >> 4);
        } else {
            lemma_hex_digit_round_trip(b & 0x0f);
        }
    }
    assert forall|i: int| 0 <= i < bytes.len() implies hex_bytes_of(s)[i] == bytes[i] by {
        let b = bytes[i];
        assert(b >> 4 < 16 && b & 0x0f < 16) by (bit_vector);
        lemma_hex_digit_round_trip(b >> 4);
        lemma_hex_digit_round_trip(b & 0x0f);
        assert(s[2 * i] == hex_digit_char(b >> 4));
        assert(s[2 * i + 1] == hex_digit_char(b & 0x0f));
        assert(16 * (b >> 4) + (b & 0x0f) == b) by (bit_vector);
    }
    assert(hex_bytes_of(s) =~= bytes);
}

/// Encodes bytes as a lowercase hexadecimal string.
pub fn hex_encode(bytes: &[u8]) -> (r: String)
    ensures
        r@ == hex_chars(bytes@),
{
    let n = bytes.len();
    let mut out: Vec<u8> = Vec::new();
    for i in 0..n
        invariant
            n == bytes@.len(),
            out@.len() == 2 * i,
            is_ascii_bytes(out@),
            forall|j: int| 0 <= j < out@.len() ==> #[trigger] out@[j] as char == hex_chars(
                bytes@,
            )[j],
    {
        let b = bytes[i];
        assert(b >> 4 < 16 && b & 0x0f < 16) by (bit_vector);
        let hi = b >> 4;
        let lo = b & 0x0f;
        let hi_c: u8 = if hi < 10 {
            48 + hi
        } else {
            87 + hi
        };
        let lo_c: u8 = if lo < 10 {
            48 + lo
        } else {
            87 + lo
        };
        out.push(hi_c);
        out.push(lo_c);
    }
    let r = ascii_to_string(out);
    assert(r@ =~= hex_chars(bytes@));
    r
}

/// Hexadecimal digits are ASCII, so a decodable string is an ASCII string.
proof fn lemma_valid_hex_is_ascii(s: Seq<char>)
    ensures
        valid_hex(s) ==> vstd::utf8::is_ascii_chars(s),
{
    if valid_hex(s) {
        assert forall|i: int| 0 <= i < s.len() implies '\0' <= #[trigger] s[i] <= '\u{7f}' by {
            assert(is_hex_digit(s[i]));
        }
    }
}

/// For an ASCII character, the digit tests and digit value of its byte form
/// agree with those of the character itself.
proof fn lemma_ascii_char_byte_value(c: char)
    requires
        '\0' <= c <= '\u{7f}',
    ensures
        is_hex_digit(c) <==> ((48 <= c as u8 <= 57) || (65 <= c as u8 <= 70) || (97 <= c as u8
            <= 102)),
        is_hex_digit(c) ==> hex_digit_value(c) == (if 48 <= c as u8 <= 57 {
            (c as u8 - 48) as u8
        } else if 65 <= c as u8 <= 70 {
            (c as u8 - 55) as u8
        } else {
            (c as u8 - 87) as u8
        }),
{
}

/// The hexadecimal value of an ASCII byte, when it is a hexadecimal digit.
fn hex_value_of_byte(b: u8) -> (r: Option<u8>)
    ensures
        r is Some <==> ((48 <= b <= 57) || (65 <= b <= 70) || (97 <= b <= 102)),
        r matches Some(v) ==> v == (if 48 <= b <= 57 {
            (b - 48) as u8
        } else if 65 <= b <= 70 {
            (b - 55) as u8
        } else {
            (b - 87) as u8
        }),
{
    if 48 <= b && b <= 57 {
        Some(b - 48)
    } else if 65 <= b && b <= 70 {
        Some(b - 55)
    } else if 97 <= b && b <= 102 {
        Some(b - 87)
    } else {
        None
    }
}

/// Decodes a hexadecimal string, in either case, into the bytes it encodes.
/// Returns an error exactly when the input has an odd number of characters or
/// any character outside the hexadecimal alphabet.
pub fn hex_decode(s: &str) -> (r: Result<Vec<u8>, HexDecodeError>)
    ensures
        r is Ok <==> valid_hex(s@),
        r matches Ok(v) ==> v@ == hex_bytes_of(s@),
        !vstd::utf8::is_ascii_chars(s@) ==> r == Err::<Vec<u8>, HexDecodeError>(
            HexDecodeError::InvalidCharacter,
        ),
        vstd::utf8::is_ascii_chars(s@) && s@.len() % 2 != 0 ==> r == Err::<Vec<u8>, HexDecodeError>(
            HexDecodeError::OddLength,
        ),
        vstd::utf8::is_ascii_chars(s@) && s@.len() % 2 == 0 && !valid_hex(s@) ==> r == Err::<
            Vec<u8>,
            HexDecodeError,
        >(HexDecodeError::InvalidCharacter),
{
    proof {
        lemma_valid_hex_is_ascii(s@);
        if vstd::string::is_ascii(s) {
            vstd::string::is_ascii_spec_bytes(s);
        }
    }
    if !s.is_ascii() {
        return Err(HexDecodeError::InvalidCharacter);
    }
    let bytes = s.as_bytes();
    let n = bytes.len();
    // With an ASCII string, byte `i` of the UTF-8 form is character `i`.
    assert(n == s@.len());
    if n % 2 != 0 {
        return Err(HexDecodeError::OddLength);
    }
    let mut out: Vec<u8> = Vec::new();
    let mut i: usize = 0;
    while i < n
        invariant
            n == s@.len(),
            n % 2 == 0,
            i % 2 == 0,
            i <= n,
            bytes@.len() == n,
            forall|j: int| 0 <= j < n ==> #[trigger] bytes@[j] == s@[j] as u8,
            vstd::utf8::is_ascii_chars(s@),
            out@.len() == i / 2,
            forall|j: int| 0 <= j < i ==> is_hex_digit(#[trigger] s@[j]),
            forall|j: int| 0 <= j < i / 2 ==> #[trigger] out@[j] == 16 * hex_digit_value(
                s@[2 * j],
            ) + hex_digit_value(s@[2 * j + 1]),
        decreases n - i,
    {
        proof {
            lemma_ascii_char_byte_value(s@[i as int]);
            lemma_ascii_char_byte_value(s@[i as int + 1]);
        }
        let hi = match hex_value_of_byte(bytes[i]) {
            Some(v) => v,
            None => {
                return Err(HexDecodeError::InvalidCharacter);
            },
        };
        let lo = match hex_value_of_byte(bytes[i + 1]) {
            Some(v) => v,
            None => {
                return Err(HexDecodeError::InvalidCharacter);
            },
        };
        out.push(16 * hi + lo);
        i = i + 2;
    }
    assert(out@ =~= hex_bytes_of(s@));
    Ok(out)
}

} // verus!

verus! {

} // verus!
