//! The REST client cores: each endpoint's path, the signed header values,
//! and the flattened envelope each call sends.
use gemini_client::private::Private;
use gemini_client::public::Public;
use gemini_client::sign::sign;
use gemini_client::structs::order::{Order, OrderId, OrderSide};
use gemini_client::GEMINI_SANDBOX_URL;

fn decoded_payload(payload: &str) -> serde_json::Value {
    let text = base64::decode(payload).unwrap();
    serde_json::from_slice(&text).unwrap()
}

#[test]
fn balances_call_is_signed_for_its_path() {
    let mut client = Private::new(GEMINI_SANDBOX_URL, "my-key", "my-secret");
    let call = client.balances();
    assert_eq!(call.path, "/v1/balances");
    assert_eq!(call.auth.api_key, "my-key");
    let v = decoded_payload(&call.auth.payload);
    assert_eq!(v["request"], serde_json::Value::from("/v1/balances"));
    assert!(v["nonce"].is_u64());
    assert_eq!(v.as_object().unwrap().len(), 2);
    assert_eq!(call.auth.signature, sign("my-secret", &call.auth.payload));
}

#[test]
fn recent_trades_call_carries_the_symbol() {
    let mut client = Private::new(GEMINI_SANDBOX_URL, "k", "s");
    let call = client.recent_trades("btcusd");
    assert_eq!(call.path, "/v1/mytrades");
    let v = decoded_payload(&call.auth.payload);
    assert_eq!(v["request"], serde_json::Value::from("/v1/mytrades"));
    assert_eq!(v["symbol"], serde_json::Value::from("btcusd"));
}

#[test]
fn new_order_call_flattens_the_order_fields() {
    let mut client = Private::new(GEMINI_SANDBOX_URL, "k", "s");
    let order = Order::limit(
        "btcusd",
        "oid-1".to_string(),
        OrderSide::Buy,
        "5".to_string(),
        "3633.00".to_string(),
        true,
    );
    let call = client.new_order(&order);
    assert_eq!(call.path, "/v1/order/new");
    let v = decoded_payload(&call.auth.payload);
    assert_eq!(v["request"], serde_json::Value::from("/v1/order/new"));
    assert_eq!(v["price"], serde_json::Value::from("3633.00"));
    assert_eq!(v["amount"], serde_json::Value::from("5"));
    assert_eq!(v["side"], serde_json::Value::from("buy"));
    assert_eq!(v["symbol"], serde_json::Value::from("btcusd"));
    assert_eq!(v["client_order_id"], serde_json::Value::from("oid-1"));
    assert_eq!(v["options"], serde_json::Value::from(vec!["maker-or-cancel"]));
    assert_eq!(v["type"], serde_json::Value::from("exchange limit"));
}

#[test]
fn cancel_order_call_carries_the_identifier_as_a_number() {
    let mut client = Private::new(GEMINI_SANDBOX_URL, "k", "s");
    let call = client.cancel_order(OrderId(106817811));
    assert_eq!(call.path, "/v1/order/cancel");
    let v = decoded_payload(&call.auth.payload);
    assert_eq!(v["order_id"], serde_json::Value::from(106817811u64));
}

#[test]
fn cancel_all_call_is_empty_bodied() {
    let mut client = Private::new(GEMINI_SANDBOX_URL, "k", "s");
    let call = client.cancel_all_orders();
    assert_eq!(call.path, "/v1/order/cancel/all");
    let v = decoded_payload(&call.auth.payload);
    assert_eq!(v.as_object().unwrap().len(), 2);
}

#[test]
fn notional_volume_call_targets_its_path() {
    let mut client = Private::new(GEMINI_SANDBOX_URL, "k", "s");
    let call = client.notional_volume();
    assert_eq!(call.path, "/v1/notionalvolume");
    let v = decoded_payload(&call.auth.payload);
    assert_eq!(v["request"], serde_json::Value::from("/v1/notionalvolume"));
}

#[test]
fn successive_calls_draw_increasing_nonces() {
    let mut client = Private::new(GEMINI_SANDBOX_URL, "k", "s");
    let mut last: u64 = 0;
    for _ in 0..8 {
        let call = client.balances();
        let v = decoded_payload(&call.auth.payload);
        let nonce = v["nonce"].as_u64().unwrap();
        assert!(nonce > last);
        last = nonce;
    }
}

#[test]
fn public_paths() {
    let client = Public::new(GEMINI_SANDBOX_URL);
    assert_eq!(client.uri(), GEMINI_SANDBOX_URL);
    assert_eq!(client.get_symbols(), "/v1/symbols");
    assert_eq!(client.get_ticker("btcusd"), "/v1/pubticker/btcusd");
}
