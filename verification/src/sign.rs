//! Request signing: HMAC with a 384-bit hash over the UTF-8 bytes of the
//! payload text, hex-encoded in lower case.  One signing routine serves both
//! the REST envelope path and the feed-session authenticated handshake.
use vstd::prelude::*;
use vstd::utf8::encode_utf8;
use crate::json::hex_digit;

verus! {

/// The HMAC-SHA-384 digest of a message under a key.  Named only: the hash
/// itself is computed by an outside crate and is a function of key and
/// message alone.
pub uninterp spec fn hmac_sha384_of(key: Seq<u8>, msg: Seq<u8>) -> Seq<u8>;

/// The base64 text (standard alphabet, padded) of a byte sequence.  Named
/// only: the encoding is done by an outside crate and is a function of the
/// bytes alone.
pub uninterp spec fn base64_of(bs: Seq<u8>) -> Seq<char>;

/// Lowercase hex text of a byte sequence: two digits per byte, high nibble
/// first.
pub open spec fn hex_of(bs: Seq<u8>) -> Seq<char>
    decreases bs.len(),
{
    if bs.len() == 0 {
        Seq::empty()
    } else {
        seq![hex_digit((bs[0] / 16) as nat), hex_digit((bs[0] % 16) as nat)] + hex_of(
            bs.drop_first(),
        )
    }
}

/// Relies on rust-crypto's `Hmac::new` with `Sha384::new`, `Mac::input` and
/// `Mac::raw_result`: the digest depends on key and message alone, and a
/// SHA-384 digest is 48 bytes (384 bits).
#[verifier::external_body]
fn hmac_sha384(key: &[u8], msg: &[u8]) -> (r: Vec<u8>)
    ensures
        r@ == hmac_sha384_of(key@, msg@),
        r@.len() == 48,
{
    let mut mac = crypto::hmac::Hmac::new(crypto::sha2::Sha384::new(), key);
    crypto::mac::Mac::input(&mut mac, msg);
    let mut buf = vec![0u8; 48];
    crypto::mac::Mac::raw_result(&mut mac, &mut buf);
    buf
}

/// Relies on hex's `ToHex::encode_hex`: two lowercase hex digits per byte,
/// high nibble first.
#[verifier::external_body]
fn hex_encode(bs: &Vec<u8>) -> (r: String)
    ensures
        r@ == hex_of(bs@),
{
    hex::ToHex::encode_hex(bs)
}

/// Relies on base64's `encode`: standard alphabet with padding; the text
/// depends on the bytes alone.
#[verifier::external_body]
pub(crate) fn base64_encode(bs: &[u8]) -> (r: String)
    ensures
        r@ == base64_of(bs@),
{
    base64::encode(bs)
}

/// Relies on base64's `decode`: it inverts `encode`, so text produced by
/// `encode` decodes to exactly the encoded bytes.
#[verifier::external_body]
fn base64_decode(s: &str) -> (r: Option<Vec<u8>>)
    ensures
        match r {
            Some(v) => forall|bs: Seq<u8>| s@ == base64_of(bs) ==> v@ == bs,
            None => forall|bs: Seq<u8>| s@ != base64_of(bs),
        },
{
    match base64::decode(s) {
        Ok(v) => Some(v),
        Err(_) => None,
    }
}

/// The signature for a payload text under a secret: lowercase hex of the
/// HMAC-SHA-384 digest over the UTF-8 bytes of both.
pub open spec fn sign_spec(secret: Seq<char>, payload: Seq<char>) -> Seq<char> {
    hex_of(hmac_sha384_of(encode_utf8(secret), encode_utf8(payload)))
}

/// Hex text is two digits per byte.
pub proof fn lemma_hex_of_len(bs: Seq<u8>)
    ensures
        hex_of(bs).len() == 2 * bs.len(),
    decreases bs.len(),
{
    if bs.len() > 0 {
        lemma_hex_of_len(bs.drop_first());
    }
}

/// Signs a payload text with the account secret.  Deterministic and total:
/// the result is a function of the two arguments alone, shared by the REST
/// envelope path and the feed-session authenticated handshake.
pub fn sign(secret: &str, payload: &str) -> (r: String)
    ensures
        r@ == sign_spec(secret@, payload@),
        r@.len() == 96,
{
    let digest = hmac_sha384(secret.as_bytes(), payload.as_bytes());
    proof {
        lemma_hex_of_len(digest@);
    }
    hex_encode(&digest)
}

/// Law: signing is deterministic — equal secrets and equal payload texts
/// give equal signatures.
pub proof fn lemma_sign_deterministic(s1: Seq<char>, p1: Seq<char>, s2: Seq<char>, p2: Seq<char>)
    requires
        s1 == s2,
        p1 == p2,
    ensures
        sign_spec(s1, p1) == sign_spec(s2, p2),
{
}

/// Recovers the bytes that a base64 payload text was made from, as the
/// exchange's side does before checking a signature.
pub fn recover_payload(payload: &str) -> (r: Option<Vec<u8>>)
    ensures
        match r {
            Some(v) => forall|bs: Seq<u8>| payload@ == base64_of(bs) ==> v@ == bs,
            None => forall|bs: Seq<u8>| payload@ != base64_of(bs),
        },
{
    base64_decode(payload)
}

} // verus!
