//! Envelopes: exact canonical text, the transport encoding round trip, the
//! signed headers, and nonce monotonicity.
use gemini_client::envelope::{build_auth, payload_round_trip, NonceGen, Payload};
use gemini_client::json::Json;
use gemini_client::sign::{recover_payload, sign};

#[test]
fn envelope_text_is_exact() {
    let p = Payload { nonce: 123456, request: "/v1/order/events".to_string(), body: vec![] };
    assert_eq!(p.to_text(), "{\"nonce\":123456,\"request\":\"/v1/order/events\"}");
}

#[test]
fn envelope_flattens_body_fields() {
    let p = Payload {
        nonce: 7,
        request: "/v1/mytrades".to_string(),
        body: vec![("symbol".to_string(), Json::Str("btcusd".to_string()))],
    };
    assert_eq!(p.to_text(), "{\"nonce\":7,\"request\":\"/v1/mytrades\",\"symbol\":\"btcusd\"}");
    // The body shape is valid JSON as the exchange's parser would see it.
    let v: serde_json::Value = serde_json::from_str(&p.to_text()).unwrap();
    assert_eq!(v["nonce"], serde_json::Value::from(7u64));
    assert_eq!(v["request"], serde_json::Value::from("/v1/mytrades"));
    assert_eq!(v["symbol"], serde_json::Value::from("btcusd"));
}

#[test]
fn empty_body_keeps_stable_object_shape() {
    let p = Payload { nonce: 1, request: "/v1/balances".to_string(), body: vec![] };
    let v: serde_json::Value = serde_json::from_str(&p.to_text()).unwrap();
    let obj = v.as_object().unwrap();
    assert_eq!(obj.len(), 2);
}

#[test]
fn build_auth_encodes_and_signs_the_canonical_text() {
    let p = Payload { nonce: 42, request: "/v1/balances".to_string(), body: vec![] };
    let auth = build_auth("my-key", "my-secret", &p);
    assert_eq!(auth.api_key, "my-key");
    let expected_payload = base64::encode(p.to_text().as_bytes());
    assert_eq!(auth.payload, expected_payload);
    assert_eq!(auth.signature, sign("my-secret", &auth.payload));
}

#[test]
fn payload_text_round_trips_through_base64() {
    let p = Payload {
        nonce: 99,
        request: "/v1/order/new".to_string(),
        body: vec![("price".to_string(), Json::Str("3633.00".to_string()))],
    };
    assert!(payload_round_trip(&p));
    let auth = build_auth("k", "s", &p);
    let back = recover_payload(&auth.payload).unwrap();
    assert_eq!(back, p.to_text().into_bytes());
}

#[test]
fn same_logical_envelope_reproduces_the_signature() {
    let p1 = Payload { nonce: 8, request: "/v1/balances".to_string(), body: vec![] };
    let p2 = Payload { nonce: 8, request: "/v1/balances".to_string(), body: vec![] };
    let a1 = build_auth("k", "s", &p1);
    let a2 = build_auth("k", "s", &p2);
    assert_eq!(a1.payload, a2.payload);
    assert_eq!(a1.signature, a2.signature);
}

#[test]
fn nonces_strictly_increase() {
    let mut gen = NonceGen::new();
    let nonces = gen.fresh_nonces(64);
    assert_eq!(nonces.len(), 64);
    for w in nonces.windows(2) {
        assert!(w[0] < w[1]);
    }
}

#[test]
fn wrapped_envelopes_carry_increasing_nonces() {
    let mut gen = NonceGen::new();
    let mut last: u64 = 0;
    for _ in 0..16 {
        let p = Payload::empty(&mut gen, "/v1/balances");
        assert!(p.nonce > last);
        last = p.nonce;
    }
}
