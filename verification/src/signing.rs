//! The outbound request signer.
//!
//! Every API request is authenticated by an HMAC-SHA-256 digest over the
//! concatenation, in this exact order and with no separator, of: the decimal
//! Unix timestamp in seconds, the uppercase HTTP method, the path with its
//! query string, and the body bytes when a body is present.  The digest is
//! rendered as lowercase hexadecimal and travels in a header beside the app
//! token and the raw timestamp.  The absence of separators is part of the
//! wire protocol: the service recomputes the digest over the same
//! concatenation.

use vstd::prelude::*;

verus! {

use vstd::string::StringExecFns;
use vstd::utf8::encode_utf8;
use crate::text::{dec_bytes, dec_chars, decimal_digits, decimal_string, lemma_dec_chars_utf8};
use crate::codec::hex_chars;
use crate::codec::hex_encode;
use crate::mac::{hmac_sha256_of, hmac_sha256};

/// The view of an optional body string as an optional character sequence.
pub open spec fn opt_view(body: Option<String>) -> Option<Seq<char>> {
    match body {
        Option::Some(b) => Option::Some(b@),
        Option::None => Option::None,
    }
}

/// The bytes an optional body contributes to the signed material: its UTF-8
/// form when present, nothing when absent.
pub open spec fn opt_body_bytes(body: Option<Seq<char>>) -> Seq<u8> {
    match body {
        Option::Some(b) => encode_utf8(b),
        Option::None => Seq::empty(),
    }
}

/// The exact bytes the signer hashes: decimal timestamp, method, path and
/// query, and the body when present, concatenated with no separator.
pub open spec fn signed_message(
    ts: u64,
    method: Seq<char>,
    path: Seq<char>,
    body: Option<Seq<char>>,
) -> Seq<u8> {
    dec_bytes(ts as nat) + encode_utf8(method) + encode_utf8(path) + opt_body_bytes(body)
}

/// The signature attached to a request: the lowercase hexadecimal rendering
/// of the HMAC-SHA-256 digest of the signed message under the secret key.
pub open spec fn request_signature(
    secret_key: Seq<char>,
    ts: u64,
    method: Seq<char>,
    path: Seq<char>,
    body: Option<Seq<char>>,
) -> Seq<char> {
    hex_chars(hmac_sha256_of(encode_utf8(secret_key), signed_message(ts, method, path, body)))
}

/// Assembles the bytes over which a request signature is computed.
fn signed_message_bytes(ts: u64, method: &str, path: &str, body: &Option<String>) -> (m: Vec<u8>)
    ensures
        m@ == signed_message(ts, method@, path@, opt_view(*body)),
{
    let mut m = decimal_digits(ts);
    m.extend_from_slice(method.as_bytes());
    m.extend_from_slice(path.as_bytes());
    match body {
        Option::Some(b) => {
            m.extend_from_slice(b.as_str().as_bytes());
        },
        Option::None => {},
    }
    assert(m@ =~= signed_message(ts, method@, path@, opt_view(*body)));
    m
}

/// Signs one request: computes the lowercase hexadecimal HMAC-SHA-256
/// signature of the timestamp, method, path and optional body under the
/// secret key.  The signature is 64 hexadecimal characters.
pub fn sign_request(secret_key: &str, ts: u64, method: &str, path: &str, body: &Option<String>) -> (
    sig: String)
    ensures
        sig@ == request_signature(secret_key@, ts, method@, path@, opt_view(*body)),
        sig@.len() == 64,
{
    let msg = signed_message_bytes(ts, method, path, body);
    let digest = hmac_sha256(secret_key.as_bytes(), msg.as_slice());
    hex_encode(digest.as_slice())
}

/// The three header values that authenticate one outbound request.  They are
/// built fresh for every request — a signature is bound to one exact
/// timestamp, method, path and body — and discarded after use.
pub struct AuthHeaders {
    /// The app token identifying the requesting application.
    pub app_token: String,
    /// The lowercase hexadecimal request signature.
    pub signature: String,
    /// The signed Unix timestamp, in decimal seconds.
    pub timestamp: String,
}

/// Builds the authentication headers for one outbound request.
pub fn build_auth_headers(
    app_token: &str,
    secret_key: &str,
    ts: u64,
    method: &str,
    path: &str,
    body: &Option<String>,
) -> (h: AuthHeaders)
    ensures
        h.app_token@ == app_token@,
        h.signature@ == request_signature(secret_key@, ts, method@, path@, opt_view(*body)),
        h.timestamp@ == dec_chars(ts as nat),
{
    AuthHeaders {
        app_token: String::from_str(app_token),
        signature: sign_request(secret_key, ts, method, path, body),
        timestamp: decimal_string(ts),
    }
}

/// The header carrying the app token.
pub fn header_app_token() -> (r: &'static str)
    ensures
        r@ == "X-App-Token"@,
{
    "X-App-Token"
}

/// The header carrying the request signature.
pub fn header_access_signature() -> (r: &'static str)
    ensures
        r@ == "X-App-Access-Sig"@,
{
    "X-App-Access-Sig"
}

/// The header carrying the signed timestamp.
pub fn header_access_timestamp() -> (r: &'static str)
    ensures
        r@ == "X-App-Access-Ts"@,
{
    "X-App-Access-Ts"
}

/// The content type of a JSON request body.
pub fn json_content_type() -> (r: &'static str)
    ensures
        r@ == "application/json"@,
{
    "application/json"
}

/// The content type marking a newline-delimited bulk body, so the service
/// parses it as one JSON record per line rather than a single document.
pub fn ndjson_content_type() -> (r: &'static str)
    ensures
        r@ == "application/x-ndjson"@,
{
    "application/x-ndjson"
}

/// The newline-joined form of a list of lines: a single `\n` between
/// consecutive lines and no trailing separator.
pub open spec fn joined_lines(lines: Seq<Seq<char>>) -> Seq<char>
    decreases lines.len(),
{
    if lines.len() == 0 {
        Seq::empty()
    } else if lines.len() == 1 {
        lines[0]
    } else {
        joined_lines(lines.drop_last()) + seq!['\n'] + lines.last()
    }
}

/// Joins independently serialized records into one newline-delimited bulk
/// body: a single `\n` between consecutive lines, none at the end.
pub fn join_ndjson_lines(lines: &Vec<String>) -> (r: String)
    ensures
        r@ == joined_lines(lines@.map_values(|s: String| s@)),
{
    let ghost lv = lines@.map_values(|s: String| s@);
    let mut r = String::new();
    let n = lines.len();
    assert(lv.take(0) =~= Seq::<Seq<char>>::empty());
    for i in 0..n
        invariant
            n == lines@.len(),
            lv == lines@.map_values(|s: String| s@),
            r@ == joined_lines(lv.take(i as int)),
    {
        proof {
            reveal_strlit("\n");
        }
        if i > 0 {
            r.append("\n");
        }
        r.append(lines[i].as_str());
        proof {
            let prefix = lv.take(i as int + 1);
            assert(prefix.drop_last() =~= lv.take(i as int));
            assert(prefix.last() == lv[i as int]);
            assert(r@ =~= joined_lines(prefix));
        }
    }
    assert(lv.take(n as int) =~= lv);
    r
}

/// Signing is deterministic: two signatures computed over one and the same
/// key, timestamp, method, path and body are byte-identical.
pub proof fn lemma_signing_deterministic(
    secret_key: Seq<char>,
    ts: u64,
    method: Seq<char>,
    path: Seq<char>,
    body: Option<Seq<char>>,
    sig1: Seq<char>,
    sig2: Seq<char>,
)
    requires
        sig1 == request_signature(secret_key, ts, method, path, body),
        sig2 == request_signature(secret_key, ts, method, path, body),
    ensures
        sig1 == sig2,
{
}

/// Equal concatenations with equally long first parts have equal parts.
proof fn lemma_append_cancel(s1: Seq<u8>, s2: Seq<u8>, t1: Seq<u8>, t2: Seq<u8>)
    requires
        s1 + s2 == t1 + t2,
        s1.len() == t1.len(),
    ensures
        s1 == t1,
        s2 == t2,
{
    assert((s1 + s2).len() == s1.len() + s2.len());
    assert((t1 + t2).len() == t1.len() + t2.len());
    assert(s1.len() + s2.len() == t1.len() + t2.len());
    assert forall|i: int| 0 <= i < s1.len() implies s1[i] == t1[i] by {
        assert((s1 + s2)[i] == s1[i]);
        assert((t1 + t2)[i] == t1[i]);
    }
    assert(s1 =~= t1);
    assert forall|i: int| 0 <= i < s2.len() implies s2[i] == t2[i] by {
        assert((s1 + s2)[s1.len() + i] == s2[i]);
        assert((t1 + t2)[t1.len() + i] == t2[i]);
    }
    assert(s2 =~= t2);
}

/// With the field widths fixed, the canonical message separates the fields:
/// two signing inputs whose methods, paths and bodies encode to equally many
/// bytes yield the same signed message only when timestamp, method, path and
/// body bytes all agree.  A changed byte in any one field therefore changes
/// the signed bytes — and with them the signature, short of an HMAC-SHA-256
/// collision.  Without the width condition this does not hold: the scheme
/// concatenates with no separator, so moving a byte across the path/body
/// boundary leaves the signed bytes unchanged.
pub proof fn lemma_message_separates_fields(
    ts1: u64,
    method1: Seq<char>,
    path1: Seq<char>,
    body1: Option<Seq<char>>,
    ts2: u64,
    method2: Seq<char>,
    path2: Seq<char>,
    body2: Option<Seq<char>>,
)
    requires
        encode_utf8(method1).len() == encode_utf8(method2).len(),
        encode_utf8(path1).len() == encode_utf8(path2).len(),
        opt_body_bytes(body1).len() == opt_body_bytes(body2).len(),
        signed_message(ts1, method1, path1, body1) == signed_message(ts2, method2, path2, body2),
    ensures
        ts1 == ts2,
        encode_utf8(method1) == encode_utf8(method2),
        encode_utf8(path1) == encode_utf8(path2),
        opt_body_bytes(body1) == opt_body_bytes(body2),
{
    let d1 = dec_bytes(ts1 as nat);
    let d2 = dec_bytes(ts2 as nat);
    let m1 = encode_utf8(method1);
    let m2 = encode_utf8(method2);
    let p1 = encode_utf8(path1);
    let p2 = encode_utf8(path2);
    let b1 = opt_body_bytes(body1);
    let b2 = opt_body_bytes(body2);
    assert(d1 + m1 + p1 + b1 == d2 + m2 + p2 + b2);
    assert((d1 + m1 + p1 + b1).len() == d1.len() + m1.len() + p1.len() + b1.len());
    assert((d2 + m2 + p2 + b2).len() == d2.len() + m2.len() + p2.len() + b2.len());
    assert(d1.len() == d2.len());
    lemma_append_cancel(d1 + m1 + p1, b1, d2 + m2 + p2, b2);
    lemma_append_cancel(d1 + m1, p1, d2 + m2, p2);
    lemma_append_cancel(d1, m1, d2, m2);
    crate::text::lemma_dec_bytes_injective(ts1 as nat, ts2 as nat);
}

/// The timestamp header value encodes, byte for byte, to the decimal prefix
/// of the signed message: the service recomputing the digest from the header
/// hashes the same leading bytes the signer hashed.
pub proof fn lemma_timestamp_header_matches_message(
    ts: u64,
    method: Seq<char>,
    path: Seq<char>,
    body: Option<Seq<char>>,
)
    ensures
        encode_utf8(dec_chars(ts as nat)) == signed_message(ts, method, path, body).take(
            dec_bytes(ts as nat).len() as int,
        ),
{
    lemma_dec_chars_utf8(ts as nat);
    assert(signed_message(ts, method, path, body).take(dec_bytes(ts as nat).len() as int)
        =~= dec_bytes(ts as nat));
}

} // verus!
