//! The feed session: handshake content per feed kind, and the two-phase
//! lifecycle that keeps frames behind the handshake boundary.
use gemini_client::envelope::NonceGen;
use gemini_client::sign::sign;
use gemini_client::wsfeed::{
    FeedKind, FeedSession, SessionState, Subscription, SubscriptionType, WSFeed,
    MARKETDATA_PATH, ORDER_EVENTS_PATH,
};

#[test]
fn subscribe_message_is_exact() {
    let subs = vec![Subscription {
        name: SubscriptionType::L2,
        symbols: vec!["btcusd".to_string(), "ethusd".to_string()],
    }];
    assert_eq!(
        WSFeed::subscribe_message(&subs),
        "{\"type\":\"subscribe\",\"subscriptions\":[{\"name\":\"l2\",\
\"symbols\":[\"btcusd\",\"ethusd\"]}]}"
    );
}

#[test]
fn feed_paths_are_fixed() {
    assert_eq!(MARKETDATA_PATH, "/v2/marketdata");
    assert_eq!(ORDER_EVENTS_PATH, "/v1/order/events");
}

#[test]
fn order_events_auth_signs_an_empty_envelope_for_the_fixed_path() {
    let mut gen = NonceGen::new();
    let auth = WSFeed::order_events_auth(&mut gen, "my-key", "my-secret");
    assert_eq!(auth.api_key, "my-key");
    let text = base64::decode(&auth.payload).unwrap();
    let v: serde_json::Value = serde_json::from_slice(&text).unwrap();
    let obj = v.as_object().unwrap();
    assert_eq!(obj.len(), 2);
    assert_eq!(v["request"], serde_json::Value::from("/v1/order/events"));
    assert!(v["nonce"].is_u64());
    assert_eq!(auth.signature, sign("my-secret", &auth.payload));
}

#[test]
fn market_data_session_walks_the_states() {
    let mut s = FeedSession::new(FeedKind::MarketData);
    assert_eq!(s.state, SessionState::Disconnected);
    assert!(!s.can_deliver());
    s.start_connect();
    assert_eq!(s.state, SessionState::Connecting);
    s.transport_connected();
    assert_eq!(s.state, SessionState::Handshaking);
    assert!(s.needs_subscribe());
    assert!(!s.can_deliver());
    s.handshake_done();
    assert_eq!(s.state, SessionState::Streaming);
    assert!(s.can_deliver());
    s.stream_ended();
    assert_eq!(s.state, SessionState::Closed);
    assert!(!s.can_deliver());
}

#[test]
fn order_events_session_authenticates_in_the_upgrade() {
    let mut s = FeedSession::new(FeedKind::OrderEvents);
    s.start_connect();
    s.transport_connected();
    assert!(!s.needs_subscribe());
    s.handshake_done();
    assert!(s.can_deliver());
}

#[test]
fn handshake_failure_is_terminal_before_streaming() {
    let mut s = FeedSession::new(FeedKind::MarketData);
    s.start_connect();
    s.transport_connected();
    s.handshake_failed();
    assert_eq!(s.state, SessionState::Failed);
    assert!(!s.can_deliver());
}

#[test]
fn transport_failure_is_terminal() {
    let mut s = FeedSession::new(FeedKind::OrderEvents);
    s.start_connect();
    s.transport_failed();
    assert_eq!(s.state, SessionState::Failed);
    assert!(!s.can_deliver());
}
