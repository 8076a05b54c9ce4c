//! The signer: determinism, sensitivity, and agreement with the outside
//! crates it relies on.
use gemini_client::sign::sign;

#[test]
fn sign_matches_known_hmac_sha384_vector() {
    // RFC 4231 test case 2 for HMAC-SHA-384.
    let sig = sign("Jefe", "what do ya want for nothing?");
    assert_eq!(
        sig,
        "af45d2e376484031617f78d2b58a6b1b9c7ef464f5a01b47e42ec3736322445e8e2240ca5e69e2c78b3239ecfab21649"
    );
}

#[test]
fn sign_agrees_with_direct_hmac_and_hex() {
    let secret = "mysecret";
    let payload = "eyJub25jZSI6MX0=";
    let mut mac = crypto::hmac::Hmac::new(crypto::sha2::Sha384::new(), secret.as_bytes());
    crypto::mac::Mac::input(&mut mac, payload.as_bytes());
    let mut buf = vec![0u8; 48];
    crypto::mac::Mac::raw_result(&mut mac, &mut buf);
    let expected: String = hex::ToHex::encode_hex(&buf);
    assert_eq!(sign(secret, payload), expected);
}

#[test]
fn sign_is_deterministic() {
    let a = sign("key", "payload-text");
    let b = sign("key", "payload-text");
    assert_eq!(a, b);
}

#[test]
fn sign_output_shape() {
    let sig = sign("key", "payload");
    assert_eq!(sig.len(), 96);
    assert!(sig.chars().all(|c| c.is_ascii_hexdigit() && !c.is_ascii_uppercase()));
}

#[test]
fn sign_distinguishes_payloads() {
    // No two distinct payloads in a small corpus collide, and a one-byte
    // change anywhere changes the signature.
    let secret = "fixed-secret";
    let corpus = [
        "",
        "a",
        "b",
        "ab",
        "ba",
        "{\"nonce\":1}",
        "{\"nonce\":2}",
        "what do ya want for nothing?",
        "what do ya want for nothing!",
    ];
    let sigs: Vec<String> = corpus.iter().map(|p| sign(secret, p)).collect();
    for i in 0..sigs.len() {
        for j in 0..sigs.len() {
            if i != j {
                assert_ne!(sigs[i], sigs[j], "collision between {:?} and {:?}", corpus[i], corpus[j]);
            }
        }
    }
}

#[test]
fn sign_distinguishes_secrets() {
    assert_ne!(sign("secret-a", "payload"), sign("secret-b", "payload"));
}
