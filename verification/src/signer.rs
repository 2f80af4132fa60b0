//! Request signatures: HMAC-SHA512 over the timestamp, the verb, the path
//! and the body, in lower-case hexadecimal.
//!
//! The hash is the work of the `hmac` and `sha2` crates and the hexadecimal
//! text that of the `hex` crate. What is proved here is proved from the
//! contracts of the two private functions that call them, which are stated
//! without proof.

use vstd::prelude::*;
use vstd::utf8::encode_utf8;
use hmac::{Hmac, KeyInit, Mac};
use sha2::Sha512;
use crate::error::SigningError;

verus! {

/// The error of the `digest` crate for a key of a length that an algorithm
/// does not take.
#[verifier::external_type_specification]
#[verifier::external_body]
pub struct ExInvalidLength(hmac::digest::InvalidLength);

/// The HMAC-SHA512 authentication code of `message` under `key`.
pub uninterp spec fn hmac_sha512(key: Seq<u8>, message: Seq<u8>) -> Seq<u8>;

/// Computes an authentication code with `Hmac<Sha512>` of the `hmac` crate:
/// `new_from_slice`, one `update` with the whole message, `finalize`.
///
/// Stated without proof: the call succeeds for every key, since HMAC takes
/// keys of any length (a long key is hashed first, a short one padded), and
/// the code depends on the key and the message alone.
#[verifier::external_body]
fn hmac_sha512_code(key: &[u8], message: &[u8]) -> (r: Result<Vec<u8>, hmac::digest::InvalidLength>)
    ensures
        match r {
            Ok(code) => code@ == hmac_sha512(key@, message@),
            Err(_) => false,
        },
{
    let mut mac = Hmac::<Sha512>::new_from_slice(key)?;
    mac.update(message);
    Ok(mac.finalize().into_bytes().to_vec())
}

/// The lower-case hexadecimal digit of a number from 0 to 15.
pub open spec fn hex_digit(nibble: int) -> char {
    seq!['0', '1', '2', '3', '4', '5', '6', '7', '8', '9', 'a', 'b', 'c', 'd', 'e', 'f'][nibble]
}

/// `bytes` in lower-case hexadecimal: two digits for each byte, the high
/// half first.
pub open spec fn hex_lower(bytes: Seq<u8>) -> Seq<char> {
    Seq::new(
        2 * bytes.len(),
        |i: int|
            if i % 2 == 0 {
                hex_digit(bytes[i / 2] as int / 16)
            } else {
                hex_digit(bytes[i / 2] as int % 16)
            },
    )
}

/// The number from 0 to 15 that a lower-case hexadecimal digit stands for.
pub open spec fn hex_value(digit: char) -> int {
    if '0' <= digit <= '9' {
        digit as int - '0' as int
    } else {
        digit as int - 'a' as int + 10
    }
}

/// A hexadecimal digit stands for the number that it was made from.
proof fn lemma_hex_digit_value(nibble: int)
    requires
        0 <= nibble < 16,
    ensures
        hex_value(hex_digit(nibble)) == nibble,
{
}

/// Different bytes have different hexadecimal texts: two signatures are the
/// same text only where the two authentication codes are the same.
pub proof fn lemma_hex_lower_is_injective(a: Seq<u8>, b: Seq<u8>)
    requires
        hex_lower(a) == hex_lower(b),
    ensures
        a == b,
{
    assert(hex_lower(a).len() == 2 * a.len());
    assert(hex_lower(b).len() == 2 * b.len());
    assert forall|k: int| 0 <= k < a.len() implies a[k] == b[k] by {
        let x = a[k] as int;
        let y = b[k] as int;
        assert(hex_lower(a)[2 * k] == hex_digit(x / 16));
        assert(hex_lower(b)[2 * k] == hex_digit(y / 16));
        assert(hex_lower(a)[2 * k + 1] == hex_digit(x % 16));
        assert(hex_lower(b)[2 * k + 1] == hex_digit(y % 16));
        lemma_hex_digit_value(x / 16);
        lemma_hex_digit_value(y / 16);
        lemma_hex_digit_value(x % 16);
        lemma_hex_digit_value(y % 16);
    }
    assert(a =~= b);
}

/// Writes bytes in hexadecimal with `encode` of the `hex` crate.
///
/// Stated without proof: the text holds two lower-case digits for each
/// byte, in order.
#[verifier::external_body]
fn hex_encode(bytes: &[u8]) -> (text: String)
    ensures
        text@ == hex_lower(bytes@),
{
    hex::encode(bytes)
}

/// The characters of a text that may be absent.
pub open spec fn text_of(text: Option<String>) -> Option<Seq<char>> {
    match text {
        Some(text) => Some(text@),
        None => None,
    }
}

/// The bytes that are signed: the timestamp, the verb, the path and, if
/// there is one, the body, each in UTF-8, with nothing between them.
pub open spec fn signed_bytes(
    timestamp: Seq<char>,
    verb: Seq<char>,
    path: Seq<char>,
    body: Option<Seq<char>>,
) -> Seq<u8> {
    encode_utf8(timestamp) + encode_utf8(verb) + encode_utf8(path) + match body {
        Some(body) => encode_utf8(body),
        None => Seq::empty(),
    }
}

/// The signature of a request under `secret`.
pub open spec fn signature_of(
    secret: Seq<u8>,
    timestamp: Seq<char>,
    verb: Seq<char>,
    path: Seq<char>,
    body: Option<Seq<char>>,
) -> Seq<char> {
    hex_lower(hmac_sha512(secret, signed_bytes(timestamp, verb, path, body)))
}

/// Requests that agree in secret, timestamp, verb, path and body have the
/// same signature.
pub proof fn lemma_signature_is_deterministic(
    secret: Seq<u8>,
    timestamp: Seq<char>,
    verb: Seq<char>,
    path: Seq<char>,
    body: Option<Seq<char>>,
    secret2: Seq<u8>,
    timestamp2: Seq<char>,
    verb2: Seq<char>,
    path2: Seq<char>,
    body2: Option<Seq<char>>,
)
    requires
        secret == secret2,
        timestamp == timestamp2,
        verb == verb2,
        path == path2,
        body == body2,
    ensures
        signature_of(secret, timestamp, verb, path, body) == signature_of(
            secret2,
            timestamp2,
            verb2,
            path2,
            body2,
        ),
{
}

/// Signs a request: the HMAC-SHA512 code of `signed_bytes` under `secret`,
/// in lower-case hexadecimal.
///
/// The result is `Ok` for every input: no secret is refused as a key.
pub fn api_sign(
    secret: &[u8],
    timestamp: String,
    verb: &String,
    path: String,
    data: Option<String>,
) -> (r: Result<String, SigningError>)
    ensures
        match r {
            Ok(signature) => signature@ == signature_of(
                secret@,
                timestamp@,
                verb@,
                path@,
                text_of(data),
            ),
            Err(_) => false,
        },
{
    let mut message: Vec<u8> = Vec::new();
    message.extend_from_slice(timestamp.as_str().as_bytes());
    message.extend_from_slice(verb.as_str().as_bytes());
    message.extend_from_slice(path.as_str().as_bytes());
    match &data {
        Some(body) => {
            message.extend_from_slice(body.as_str().as_bytes());
        },
        None => {},
    }
    assert(message@ =~= signed_bytes(timestamp@, verb@, path@, text_of(data)));
    match hmac_sha512_code(secret, message.as_slice()) {
        Ok(code) => Ok(hex_encode(code.as_slice())),
        Err(_) => Err(SigningError::InvalidKey),
    }
}

} // verus!
