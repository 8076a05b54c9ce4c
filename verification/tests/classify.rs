//! The message classifier: the market-data tags, the order-events channel's
//! two shapes, fallback to the error variant, and order preservation.
use gemini_client::structs::order::{OrderId, OrderOptions, OrderSide};
use gemini_client::structs::wsfeed::{
    convert_md_msg, convert_order_msg, FillLiquidity, MarketDataMessage, OrderEventType,
    OrderMessage,
};
use gemini_client::types::GError;
use gemini_client::wsfeed::classify_order_frames;

const ACK: &str = "{\"type\":\"subscription_ack\",\"accountId\":5365,\
\"subscriptionId\":\"ws-order-events-5365-b8bk32clqeb13g9tk8p0\"}";

const ORDER_BATCH_TWO: &str = "[{\"type\":\"accepted\",\"order_id\":\"109535951\",\
\"event_id\":\"109535952\",\"api_session\":\"UI\",\"symbol\":\"btcusd\",\"side\":\"buy\",\
\"order_type\":\"exchange limit\",\"timestamp\":\"1547742904\",\"timestampms\":1547742904989,\
\"is_live\":true,\"is_cancelled\":false,\"is_hidden\":false,\"original_amount\":\"1\",\
\"price\":\"3592.00\",\"socket_sequence\":13},{\"type\":\"fill\",\"order_id\":\"109535951\",\
\"api_session\":\"UI\",\"symbol\":\"btcusd\",\"side\":\"buy\",\
\"order_type\":\"exchange limit\",\"timestamp\":\"1547743104\",\"timestampms\":1547743104898,\
\"is_live\":false,\"is_cancelled\":false,\"is_hidden\":false,\
\"avg_execution_price\":\"3592.00\",\"executed_amount\":\"1\",\"remaining_amount\":\"0\",\
\"original_amount\":\"1\",\"price\":\"3592.00\",\"fill\":{\"trade_id\":\"109535970\",\
\"liquidity\":\"Maker\",\"price\":\"3592.00\",\"amount\":\"1\",\"fee\":\"8.98\",\
\"fee_currency\":\"USD\"},\"socket_sequence\":17}]";

#[test]
fn heartbeat_classifies_on_market_data_feed() {
    match convert_md_msg("{\"type\":\"heartbeat\"}") {
        MarketDataMessage::Heartbeat(_) => {},
        _ => panic!("expected a heartbeat"),
    }
}

#[test]
fn heartbeat_classifies_on_order_events_feed() {
    match convert_order_msg("{\"type\":\"heartbeat\"}") {
        OrderMessage::Heartbeat(_) => {},
        _ => panic!("expected a heartbeat"),
    }
}

#[test]
fn level2_update_classifies_with_changes_and_trades() {
    let frame = "{\"type\":\"l2_updates\",\"symbol\":\"BTCUSD\",\
\"changes\":[[\"buy\",\"9122.04\",\"0.00121425\"],[\"sell\",\"9122.07\",\"0.98942292\"]],\
\"trades\":[{\"type\":\"trade\",\"symbol\":\"BTCUSD\",\"event_id\":169841458,\
\"timestamp\":1560976400428,\"price\":\"9122.04\",\"quantity\":\"0.0073173\",\
\"side\":\"sell\"}]}";
    match convert_md_msg(frame) {
        MarketDataMessage::Level2(l2) => {
            assert_eq!(l2.symbol, "BTCUSD");
            let changes = l2.changes.unwrap();
            assert_eq!(changes.len(), 2);
            assert_eq!(changes[0].order, OrderSide::Buy);
            assert_eq!(changes[0].price, "9122.04");
            assert_eq!(changes[0].quantity, "0.00121425");
            assert_eq!(changes[1].order, OrderSide::Sell);
            let trades = l2.trades.unwrap();
            assert_eq!(trades.len(), 1);
            assert_eq!(trades[0].price, "9122.04");
            assert_eq!(trades[0].quantity, "0.0073173");
            assert_eq!(trades[0].side, OrderSide::Sell);
            assert!(l2.auction_events.is_none());
        },
        _ => panic!("expected an order-book update"),
    }
}

#[test]
fn trade_classifies_on_market_data_feed() {
    let frame = "{\"type\":\"trade\",\"symbol\":\"BTCUSD\",\"price\":\"9122.04\",\
\"quantity\":\"0.0073173\",\"side\":\"sell\"}";
    match convert_md_msg(frame) {
        MarketDataMessage::Trade(t) => {
            assert_eq!(t.price, "9122.04");
            assert_eq!(t.quantity, "0.0073173");
            assert_eq!(t.side, OrderSide::Sell);
        },
        _ => panic!("expected a trade"),
    }
}

#[test]
fn unknown_tag_becomes_error_variant_without_panicking() {
    match convert_md_msg("{\"type\":\"unknown_tag\"}") {
        MarketDataMessage::InternalError(GError::SerdeDe { data, .. }) => {
            assert_eq!(data, "{\"type\":\"unknown_tag\"}");
        },
        _ => panic!("expected the error variant"),
    }
    match convert_order_msg("{\"type\":\"unknown_tag\"}") {
        OrderMessage::InternalError(GError::SerdeDe { data, .. }) => {
            assert_eq!(data, "{\"type\":\"unknown_tag\"}");
        },
        _ => panic!("expected the error variant"),
    }
}

#[test]
fn malformed_frame_becomes_error_variant() {
    match convert_md_msg("not json") {
        MarketDataMessage::InternalError(GError::SerdeDe { data, .. }) => {
            assert_eq!(data, "not json");
        },
        _ => panic!("expected the error variant"),
    }
}

#[test]
fn subscription_ack_classifies() {
    match convert_order_msg(ACK) {
        OrderMessage::SubscriptionAck(a) => {
            assert_eq!(a.account_id, 5365);
            assert_eq!(a.subscription_id, "ws-order-events-5365-b8bk32clqeb13g9tk8p0");
        },
        _ => panic!("expected a subscription acknowledgement"),
    }
}

#[test]
fn bare_array_classifies_as_order_batch_in_order() {
    match convert_order_msg(ORDER_BATCH_TWO) {
        OrderMessage::Orders(os) => {
            assert_eq!(os.len(), 2);
            assert_eq!(os[0].event_type, OrderEventType::Accepted);
            assert_eq!(os[0].order_id, OrderId(109535951));
            assert_eq!(os[0].symbol, "btcusd");
            assert_eq!(os[0].side, OrderSide::Buy);
            // Omitted execution amounts take the documented default text.
            assert_eq!(os[0].avg_execution_price, "0.00");
            assert_eq!(os[0].executed_amount, "0.00");
            assert_eq!(os[0].remaining_amount, "0.00");
            assert_eq!(os[0].price, "3592.00");
            assert!(os[0].fill.is_none());
            assert_eq!(os[1].event_type, OrderEventType::Fill);
            assert_eq!(os[1].avg_execution_price, "3592.00");
            let fill = os[1].fill.as_ref().unwrap();
            assert_eq!(fill.trade_id, "109535970");
            assert!(matches!(fill.liquidity, FillLiquidity::Maker));
            assert_eq!(fill.fee, "8.98");
        },
        _ => panic!("expected an order-status batch"),
    }
}

#[test]
fn order_id_accepts_number_or_digit_string() {
    let as_number = "[{\"type\":\"booked\",\"order_id\":12345,\"symbol\":\"btcusd\",\
\"side\":\"sell\",\"order_type\":\"exchange limit\",\"timestampms\":1,\"is_live\":true,\
\"is_cancelled\":false,\"is_hidden\":false,\"original_amount\":\"1\",\"price\":\"2.00\"}]";
    match convert_order_msg(as_number) {
        OrderMessage::Orders(os) => assert_eq!(os[0].order_id, OrderId(12345)),
        _ => panic!("expected an order-status batch"),
    }
    let as_string = as_number.replace("12345", "\"12345\"");
    match convert_order_msg(&as_string) {
        OrderMessage::Orders(os) => assert_eq!(os[0].order_id, OrderId(12345)),
        _ => panic!("expected an order-status batch"),
    }
}

#[test]
fn behavior_field_reads_kebab_case_option() {
    let frame = "[{\"type\":\"initial\",\"order_id\":1,\"symbol\":\"btcusd\",\
\"side\":\"buy\",\"behavior\":\"maker-or-cancel\",\"order_type\":\"exchange limit\",\
\"timestampms\":1,\"is_live\":true,\"is_cancelled\":false,\"is_hidden\":false,\
\"original_amount\":\"1\",\"price\":\"2.00\"}]";
    match convert_order_msg(frame) {
        OrderMessage::Orders(os) => {
            assert_eq!(os[0].behavior, Some(OrderOptions::MakerOrCancel));
        },
        _ => panic!("expected an order-status batch"),
    }
}

#[test]
fn frame_sequence_preserves_order() {
    let frames: Vec<String> = vec![
        ACK.to_string(),
        "{\"type\":\"heartbeat\"}".to_string(),
        ORDER_BATCH_TWO.to_string(),
        "[{\"type\":\"closed\",\"order_id\":\"109535951\",\"symbol\":\"btcusd\",\
\"side\":\"buy\",\"order_type\":\"exchange limit\",\"timestampms\":1547743114899,\
\"is_live\":false,\"is_cancelled\":false,\"is_hidden\":false,\"original_amount\":\"1\",\
\"price\":\"3592.00\"}]"
            .to_string(),
    ];
    let msgs = classify_order_frames(&frames);
    assert_eq!(msgs.len(), 4);
    assert!(matches!(msgs[0], OrderMessage::SubscriptionAck(_)));
    assert!(matches!(msgs[1], OrderMessage::Heartbeat(_)));
    match &msgs[2] {
        OrderMessage::Orders(os) => {
            assert_eq!(os.len(), 2);
            assert_eq!(os[0].event_type, OrderEventType::Accepted);
            assert_eq!(os[1].event_type, OrderEventType::Fill);
        },
        _ => panic!("expected the first batch"),
    }
    match &msgs[3] {
        OrderMessage::Orders(os) => {
            assert_eq!(os.len(), 1);
            assert_eq!(os[0].event_type, OrderEventType::Closed);
        },
        _ => panic!("expected the second batch"),
    }
}

#[test]
fn ack_content_failure_falls_through_to_error() {
    // A control tag whose content is missing matches neither candidate
    // decoder: not a well-formed control frame, not an array.
    let frame = "{\"type\":\"subscription_ack\"}";
    match convert_order_msg(frame) {
        OrderMessage::InternalError(GError::SerdeDe { data, .. }) => assert_eq!(data, frame),
        _ => panic!("expected the error variant"),
    }
}

#[test]
fn level2_with_null_and_missing_optional_fields() {
    let frame = "{\"type\":\"l2_updates\",\"symbol\":\"BTCUSD\",\"changes\":null}";
    match convert_md_msg(frame) {
        MarketDataMessage::Level2(l2) => {
            assert!(l2.changes.is_none());
            assert!(l2.trades.is_none());
            assert!(l2.auction_events.is_none());
        },
        _ => panic!("expected an order-book update"),
    }
}

#[test]
fn level2_change_must_be_a_triple() {
    let frame = "{\"type\":\"l2_updates\",\"symbol\":\"BTCUSD\",\
\"changes\":[[\"buy\",\"9122.04\"]]}";
    match convert_md_msg(frame) {
        MarketDataMessage::InternalError(_) => {},
        _ => panic!("expected the error variant for a short change entry"),
    }
}

#[test]
fn level2_missing_symbol_is_an_error() {
    let frame = "{\"type\":\"l2_updates\",\"changes\":[]}";
    match convert_md_msg(frame) {
        MarketDataMessage::InternalError(_) => {},
        _ => panic!("expected the error variant without a symbol"),
    }
}

#[test]
fn order_status_rejects_unknown_event_type() {
    let frame = "[{\"type\":\"launched\",\"order_id\":1,\"symbol\":\"btcusd\",\"side\":\"buy\",\
\"order_type\":\"exchange limit\",\"timestampms\":1,\"is_live\":true,\"is_cancelled\":false,\
\"is_hidden\":false,\"original_amount\":\"1\",\"price\":\"2.00\"}]";
    match convert_order_msg(frame) {
        OrderMessage::InternalError(_) => {},
        _ => panic!("expected the error variant for an unknown event type"),
    }
}

#[test]
fn empty_order_batch_is_a_batch() {
    match convert_order_msg("[]") {
        OrderMessage::Orders(os) => assert_eq!(os.len(), 0),
        _ => panic!("expected an empty batch"),
    }
}

#[test]
fn side_must_be_lowercase() {
    let frame = "{\"type\":\"trade\",\"price\":\"1.00\",\"quantity\":\"2\",\"side\":\"Buy\"}";
    match convert_md_msg(frame) {
        MarketDataMessage::InternalError(_) => {},
        _ => panic!("expected the error variant for an uppercase side"),
    }
}
