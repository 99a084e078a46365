//! ASCII byte/char helpers and decimal rendering of timestamps.
//!
//! The signing scheme concatenates byte strings, while Rust strings are
//! sequences of characters.  The helpers here tie the two views together for
//! the ASCII fragments (decimal timestamps, hexadecimal digests) that this
//! crate produces itself.

use vstd::prelude::*;

verus! {

use vstd::utf8::{
    valid_utf8, decode_utf8, encode_utf8, is_ascii_chars, is_ascii_chars_encode_utf8,
    encode_utf8_decode_utf8, encode_utf8_valid_utf8,
};

/// The character sequence standing for the given ASCII bytes, one char per byte.
pub open spec fn ascii_chars_of(bytes: Seq<u8>) -> Seq<char> {
    Seq::new(bytes.len(), |i: int| bytes[i] as char)
}

/// True when every byte of the sequence is ASCII.
pub open spec fn is_ascii_bytes(bytes: Seq<u8>) -> bool {
    forall|i: int| 0 <= i < bytes.len() ==> bytes[i] < 128
}

/// An ASCII byte sequence is valid UTF-8, and its chars are its bytes, one for one.
pub proof fn lemma_ascii_bytes_utf8(bytes: Seq<u8>)
    requires
        is_ascii_bytes(bytes),
    ensures
        valid_utf8(bytes),
        decode_utf8(bytes) == ascii_chars_of(bytes),
        encode_utf8(ascii_chars_of(bytes)) == bytes,
{
    let chars = ascii_chars_of(bytes);
    assert(is_ascii_chars(chars));
    is_ascii_chars_encode_utf8(chars);
    assert(encode_utf8(chars) =~= bytes);
    encode_utf8_valid_utf8(chars);
    encode_utf8_decode_utf8(chars);
}

/// Relies on `String::from_utf8`: on bytes that are valid UTF-8 it returns
/// `Ok` with the string made of exactly those bytes.
#[verifier::external_body]
fn utf8_to_string(bytes: Vec<u8>) -> (r: String)
    requires
        valid_utf8(bytes@),
    ensures
        r@ == decode_utf8(bytes@),
{
    String::from_utf8(bytes).unwrap_or_default()
}

/// Builds the string whose characters are the given ASCII bytes.
pub fn ascii_to_string(bytes: Vec<u8>) -> (r: String)
    requires
        is_ascii_bytes(bytes@),
    ensures
        r@ == ascii_chars_of(bytes@),
{
    proof {
        lemma_ascii_bytes_utf8(bytes@);
    }
    utf8_to_string(bytes)
}

/// A decimal digit rendered as its ASCII byte.
pub open spec fn ascii_digit(n: nat) -> u8
    recommends
        n < 10,
{
    (48 + n) as u8
}

/// The decimal digits of `n`, most significant first, as ASCII bytes.
pub open spec fn dec_bytes(n: nat) -> Seq<u8>
    decreases n,
{
    if n < 10 {
        seq![ascii_digit(n)]
    } else {
        dec_bytes(n / 10).push(ascii_digit(n % 10))
    }
}

/// The decimal digits of `n` as characters.
pub open spec fn dec_chars(n: nat) -> Seq<char> {
    ascii_chars_of(dec_bytes(n))
}

/// Decimal renderings are nonempty and consist of ASCII digit bytes alone.
pub proof fn lemma_dec_bytes_digits(n: nat)
    ensures
        dec_bytes(n).len() >= 1,
        forall|i: int| 0 <= i < dec_bytes(n).len() ==> 48 <= #[trigger] dec_bytes(n)[i] <= 57,
        is_ascii_bytes(dec_bytes(n)),
    decreases n,
{
    if n >= 10 {
        lemma_dec_bytes_digits(n / 10);
    }
}

/// Two numbers with the same decimal rendering are the same number.
pub proof fn lemma_dec_bytes_injective(a: nat, b: nat)
    requires
        dec_bytes(a) == dec_bytes(b),
    ensures
        a == b,
    decreases a,
{
    lemma_dec_bytes_digits(a / 10);
    lemma_dec_bytes_digits(b / 10);
    if a >= 10 {
        assert(dec_bytes(a) == dec_bytes(a / 10).push(ascii_digit(a % 10)));
    }
    if b >= 10 {
        assert(dec_bytes(b) == dec_bytes(b / 10).push(ascii_digit(b % 10)));
    }
    if a < 10 && b < 10 {
        assert(dec_bytes(a) == seq![ascii_digit(a)]);
        assert(dec_bytes(b) == seq![ascii_digit(b)]);
        assert(seq![ascii_digit(a)][0] == ascii_digit(a));
        assert(seq![ascii_digit(b)][0] == ascii_digit(b));
        assert(dec_bytes(a)[0] == dec_bytes(b)[0]);
        assert(ascii_digit(a) == ascii_digit(b));
        assert(48 + a < 256 && 48 + b < 256);
    } else if a >= 10 && b >= 10 {
        assert(dec_bytes(a).last() == ascii_digit(a % 10));
        assert(dec_bytes(b).last() == ascii_digit(b % 10));
        assert(a % 10 == b % 10);
        assert(dec_bytes(a).drop_last() =~= dec_bytes(a / 10));
        assert(dec_bytes(b).drop_last() =~= dec_bytes(b / 10));
        lemma_dec_bytes_injective(a / 10, b / 10);
        assert(a == 10 * (a / 10) + a % 10);
        assert(b == 10 * (b / 10) + b % 10);
    } else {
        // One rendering has a single digit and the other at least two.
        assert(dec_bytes(a).len() == dec_bytes(b).len());
        assert(false);
    }
}

/// The decimal string of a number encodes in UTF-8, byte for byte, to its
/// decimal bytes: the timestamp header and the timestamp prefix of the signed
/// message agree.
pub proof fn lemma_dec_chars_utf8(n: nat)
    ensures
        encode_utf8(dec_chars(n)) == dec_bytes(n),
{
    lemma_dec_bytes_digits(n);
    lemma_ascii_bytes_utf8(dec_bytes(n));
}

/// Renders `n` in decimal, most significant digit first, as ASCII bytes.
pub fn decimal_digits(n: u64) -> (r: Vec<u8>)
    ensures
        r@ == dec_bytes(n as nat),
    decreases n,
{
    if n < 10 {
        let mut v: Vec<u8> = Vec::new();
        v.push(48 + n as u8);
        v
    } else {
        let mut v = decimal_digits(n / 10);
        v.push(48 + (n % 10) as u8);
        v
    }
}

/// Renders `n` in decimal as a string, as a timestamp header value.
pub fn decimal_string(n: u64) -> (r: String)
    ensures
        r@ == dec_chars(n as nat),
{
    let v = decimal_digits(n);
    proof {
        lemma_dec_bytes_digits(n as nat);
    }
    ascii_to_string(v)
}

} // verus!
