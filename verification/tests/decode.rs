//! The response decoder's three tiers: the typed value, the exchange's
//! structured error, and the malformed-response error with the raw text
//! retained.
use gemini_client::private::{
    decode_balances, decode_cancel_response, decode_notional_volume, decode_order_response,
    decode_recent_trades,
};
use gemini_client::public::{decode_symbols, decode_ticker};
use gemini_client::structs::order::{OrderId, OrderOptions, OrderSide};
use gemini_client::types::GError;

const ORDER_OK: &str = "{\"order_id\":\"106817811\",\"id\":\"106817811\",\"symbol\":\"btcusd\",\
\"exchange\":\"gemini\",\"avg_execution_price\":\"3632.85101103\",\"side\":\"buy\",\
\"type\":\"exchange limit\",\"timestamp\":\"1547220404\",\"timestampms\":1547220404836,\
\"is_live\":true,\"is_cancelled\":false,\"is_hidden\":false,\"was_forced\":false,\
\"executed_amount\":\"3.7567928949\",\"remaining_amount\":\"1.2432071051\",\
\"client_order_id\":\"20190110-4738721\",\"options\":[\"maker-or-cancel\"],\
\"price\":\"3633.00\",\"original_amount\":\"5\"}";

#[test]
fn decode_success_shape_returns_typed_value() {
    let r = decode_order_response(ORDER_OK.as_bytes()).unwrap();
    assert_eq!(r.order_id, OrderId(106817811));
    assert_eq!(r.symbol, "btcusd");
    assert_eq!(r.exchange, "gemini");
    assert_eq!(r.avg_execution_price, "3632.85101103");
    assert_eq!(r.side, OrderSide::Buy);
    assert_eq!(r.order_type, "exchange limit");
    assert!(r.is_live);
    assert!(!r.is_cancelled);
    assert!(!r.is_hidden);
    assert_eq!(r.executed_amount, "3.7567928949");
    assert_eq!(r.remaining_amount, "1.2432071051");
    assert_eq!(r.client_order_id.as_deref(), Some("20190110-4738721"));
    assert_eq!(r.options, vec![OrderOptions::MakerOrCancel]);
    assert_eq!(r.price, "3633.00");
    assert_eq!(r.original_amount, "5");
    assert_eq!(r.reason, None);
}

#[test]
fn decode_error_shape_returns_semantic_error() {
    let body = "{\"result\":\"error\",\"reason\":\"InvalidSignature\",\
\"message\":\"InvalidSignature\"}";
    match decode_order_response(body.as_bytes()) {
        Err(GError::Gemini(e)) => {
            assert_eq!(e.result, "error");
            assert_eq!(e.reason, "InvalidSignature");
            assert_eq!(e.message, "InvalidSignature");
        },
        other => panic!("expected the semantic-error tier, got {:?}", other.is_ok()),
    }
}

#[test]
fn decode_garbage_keeps_the_raw_text() {
    let body = "not json at all";
    match decode_order_response(body.as_bytes()) {
        Err(GError::SerdeDe { error, data }) => {
            assert_eq!(data, body);
            assert!(!error.is_empty());
        },
        other => panic!("expected the malformed tier, got {:?}", other.is_ok()),
    }
}

#[test]
fn decode_wrong_shape_without_error_body_keeps_the_raw_text() {
    let body = "{\"unexpected\":true}";
    match decode_order_response(body.as_bytes()) {
        Err(GError::SerdeDe { data, .. }) => assert_eq!(data, body),
        other => panic!("expected the malformed tier, got {:?}", other.is_ok()),
    }
}

#[test]
fn decode_non_text_body_is_a_transport_error() {
    let body: Vec<u8> = vec![0xff, 0xfe, 0x00, 0x80];
    match decode_order_response(&body) {
        Err(GError::Http(_)) => {},
        other => panic!("expected a transport-level error, got {:?}", other.is_ok()),
    }
}

#[test]
fn decode_balances_list() {
    let body = "[{\"type\":\"exchange\",\"currency\":\"BTC\",\"amount\":\"1154.62034001\",\
\"available\":\"1129.10517279\",\"availableForWithdrawal\":\"1129.10517279\"},\
{\"type\":\"exchange\",\"currency\":\"USD\",\"amount\":\"18722.79479155\",\
\"available\":\"14481.62492260\",\"availableForWithdrawal\":\"14481.62492260\"}]";
    let r = decode_balances(body.as_bytes()).unwrap();
    assert_eq!(r.len(), 2);
    assert_eq!(r[0].currency, "BTC");
    assert_eq!(r[0].amount, "1154.62034001");
    assert_eq!(r[1].currency, "USD");
    assert_eq!(r[1].available_for_withdrawal, "14481.62492260");
}

#[test]
fn decode_balances_rejects_one_bad_entry() {
    let body = "[{\"currency\":\"BTC\",\"amount\":\"1\",\"available\":\"1\",\
\"availableForWithdrawal\":\"1\"},{\"currency\":\"USD\"}]";
    match decode_balances(body.as_bytes()) {
        Err(GError::SerdeDe { data, .. }) => assert_eq!(data, body),
        other => panic!("expected the malformed tier, got {:?}", other.is_ok()),
    }
}

#[test]
fn decode_notional_volume_fields() {
    let body = "{\"date\":\"2019-01-10\",\"last_updated_ms\":1547220404000,\
\"web_maker_fee_bps\":100,\"web_taker_fee_bps\":100,\"web_auction_fee_bps\":100,\
\"api_maker_fee_bps\":35,\"api_taker_fee_bps\":10,\"api_auction_fee_bps\":20,\
\"fix_maker_fee_bps\":35,\"fix_taker_fee_bps\":10,\"fix_auction_fee_bps\":20,\
\"block_maker_fee_bps\":0,\"block_taker_fee_bps\":50,\"notional_30d_volume\":150}";
    let r = decode_notional_volume(body.as_bytes()).unwrap();
    assert_eq!(r.date, "2019-01-10");
    assert_eq!(r.last_updated_ms, 1547220404000);
    assert_eq!(r.api_maker_fee_bps, 35);
    assert_eq!(r.block_taker_fee_bps, 50);
    assert_eq!(r.notional_30d_volume, 150);
}

#[test]
fn decode_recent_trades_list() {
    let body = "[{\"price\":\"3648.09\",\"amount\":\"0.0027343246\",\"timestamp\":1547232911,\
\"timestampms\":1547232911021,\"type\":\"Buy\",\"aggressor\":true,\
\"fee_currency\":\"USD\",\"fee_amount\":\"0.024937655575035\",\"tid\":107317526,\
\"order_id\":\"107317524\",\"exchange\":\"gemini\",\"is_auction_fill\":false}]";
    let r = decode_recent_trades(body.as_bytes()).unwrap();
    assert_eq!(r.len(), 1);
    assert_eq!(r[0].price, "3648.09");
    assert_eq!(r[0].amount, "0.0027343246");
    assert_eq!(r[0].side, OrderSide::Buy);
    assert_eq!(r[0].fee_amount, "0.024937655575035");
    assert_eq!(r[0].order_id, "107317524");
}

#[test]
fn past_trade_side_is_spelled_as_the_variant_name() {
    // Unlike the feeds' lowercase sides, this endpoint writes `Buy`/`Sell`;
    // a lowercase side here is a shape error.
    let body = "[{\"price\":\"1.00\",\"amount\":\"2\",\"type\":\"buy\",\
\"fee_amount\":\"0.01\",\"order_id\":\"5\"}]";
    match decode_recent_trades(body.as_bytes()) {
        Err(GError::SerdeDe { data, .. }) => assert_eq!(data, body),
        other => panic!("expected the malformed tier, got {:?}", other.is_ok()),
    }
    let ok = body.replace("\"buy\"", "\"Sell\"");
    let r = decode_recent_trades(ok.as_bytes()).unwrap();
    assert_eq!(r[0].side, OrderSide::Sell);
}

#[test]
fn decode_cancel_response_lists() {
    let body = "{\"result\":\"ok\",\"details\":{\"cancelledOrders\":[330429345,330429106],\
\"cancelRejects\":[]}}";
    let r = decode_cancel_response(body.as_bytes()).unwrap();
    assert_eq!(r.result, "ok");
    assert_eq!(r.details.cancelled_orders, vec![OrderId(330429345), OrderId(330429106)]);
    assert_eq!(r.details.cancel_rejects, vec![]);
}

#[test]
fn decode_symbols_list() {
    let body = "[\"btcusd\",\"ethbtc\",\"ethusd\"]";
    let r = decode_symbols(body.as_bytes()).unwrap();
    assert_eq!(r, vec!["btcusd", "ethbtc", "ethusd"]);
}

#[test]
fn decode_ticker_keeps_exact_decimal_text() {
    let body = "{\"ask\":\"977.59\",\"bid\":\"977.35\",\"last\":\"977.65\",\
\"volume\":{\"BTC\":\"2210.505328803\",\"USD\":\"2135477.463379586263\",\
\"timestamp\":1483018200000}}";
    let r = decode_ticker(body.as_bytes()).unwrap();
    assert_eq!(r.ask, "977.59");
    assert_eq!(r.bid, "977.35");
    assert_eq!(r.last, "977.65");
}
