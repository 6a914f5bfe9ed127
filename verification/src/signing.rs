//! Request signatures: HMAC-SHA256 of the payload under the API secret,
//! written as lower-case hexadecimal.

use vstd::prelude::*;
use vstd::utf8::encode_utf8;
use hmac::{Hmac, Mac};
use sha2::Sha256;

verus! {

/// HMAC-SHA256 (RFC 2104 over SHA-256) of `msg` under `key`.
pub uninterp spec fn hmac_sha256(key: Seq<u8>, msg: Seq<u8>) -> Seq<u8>;

/// The lower-case hexadecimal digit for a value below 16.
pub open spec fn hex_digit(n: int) -> char {
    if n < 10 {
        (48 + n) as char
    } else {
        (87 + n) as char
    }
}

/// Lower-case hexadecimal text of bytes: two digits per byte, high nibble first.
pub open spec fn hex_lower(bytes: Seq<u8>) -> Seq<char>
    decreases bytes.len(),
{
    if bytes.len() == 0 {
        seq![]
    } else {
        seq![hex_digit(bytes[0] as int / 16), hex_digit(bytes[0] as int % 16)] + hex_lower(
            bytes.drop_first(),
        )
    }
}

/// The signature that the venue expects for `payload` under `secret`.
pub open spec fn signature_text(secret: Seq<char>, payload: Seq<char>) -> Seq<char> {
    hex_lower(hmac_sha256(encode_utf8(secret), encode_utf8(payload)))
}

/// Computes HMAC-SHA256 with the `hmac` and `sha2` crates:
/// `Hmac::<Sha256>::new_from_slice(key)`, `update(msg)`, `finalize().into_bytes()`.
///
/// `new_from_slice` accepts a key of any length for `Hmac` (long keys are
/// hashed first), so it never fails. The contract claims that the result is
/// the named HMAC of the arguments and is 32 bytes long, the SHA-256 output size.
#[verifier::external_body]
fn hmac_sha256_bytes(key: &[u8], msg: &[u8]) -> (r: Vec<u8>)
    ensures
        r@ == hmac_sha256(key@, msg@),
        r@.len() == 32,
{
    let mut mac = Hmac::<Sha256>::new_from_slice(key).unwrap();
    mac.update(msg);
    mac.finalize().into_bytes().to_vec()
}

/// Encodes bytes with `hex::encode`.
///
/// `hex::encode` maps each byte to two characters from `0123456789abcdef`,
/// the high nibble first; the contract states exactly that.
#[verifier::external_body]
fn hex_encode(data: &[u8]) -> (s: String)
    ensures
        s@ == hex_lower(data@),
{
    hex::encode(data)
}

/// Signs `payload` with `secret`: the hex-encoded HMAC-SHA256 of the payload's bytes.
pub fn sign_payload(secret: &str, payload: &str) -> (s: String)
    ensures
        s@ == signature_text(secret@, payload@),
        s@.len() == 64,
{
    let mac = hmac_sha256_bytes(secret.as_bytes(), payload.as_bytes());
    let s = hex_encode(mac.as_slice());
    proof {
        lemma_hex_lower_len(mac@);
    }
    s
}

proof fn lemma_hex_lower_len(bytes: Seq<u8>)
    ensures
        hex_lower(bytes).len() == 2 * bytes.len(),
    decreases bytes.len(),
{
    if bytes.len() > 0 {
        lemma_hex_lower_len(bytes.drop_first());
    }
}

} // verus!
