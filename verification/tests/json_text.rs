//! The canonical JSON writer and the numeric text helpers.
use gemini_client::json::Json;
use gemini_client::num::{parse_u64, u64_to_dec};
use gemini_client::structs::order::{Order, OrderSide};
use gemini_client::structs::wsfeed::zero_price;

#[test]
fn writer_emits_exact_text() {
    let j = Json::Obj(vec![
        ("a".to_string(), Json::Num("1".to_string())),
        ("b".to_string(), Json::Str("x".to_string())),
        ("c".to_string(), Json::Arr(vec![Json::Bool(true), Json::Bool(false), Json::Null])),
    ]);
    assert_eq!(j.to_text(), "{\"a\":1,\"b\":\"x\",\"c\":[true,false,null]}");
}

#[test]
fn writer_escapes_like_the_wire_format() {
    let j = Json::Str("q\"b\\s\u{8}f\u{c}n\nr\rt\tu\u{1f}".to_string());
    assert_eq!(j.to_text(), "\"q\\\"b\\\\s\\bf\\fn\\nr\\rt\\tu\\u001f\"");
    // The escaped text reads back as the original string.
    let v: serde_json::Value = serde_json::from_str(&j.to_text()).unwrap();
    assert_eq!(v.as_str().unwrap(), "q\"b\\s\u{8}f\u{c}n\nr\rt\tu\u{1f}");
}

#[test]
fn writer_passes_other_characters_through() {
    let j = Json::Str("btcusd München ₿".to_string());
    assert_eq!(j.to_text(), "\"btcusd München ₿\"");
}

#[test]
fn empty_containers_serialize_flat() {
    assert_eq!(Json::Arr(vec![]).to_text(), "[]");
    assert_eq!(Json::Obj(vec![]).to_text(), "{}");
}

#[test]
fn decimal_text_renders_exactly() {
    assert_eq!(u64_to_dec(0), "0");
    assert_eq!(u64_to_dec(7), "7");
    assert_eq!(u64_to_dec(1547220404836), "1547220404836");
    assert_eq!(u64_to_dec(u64::MAX), "18446744073709551615");
}

#[test]
fn decimal_text_parses_exactly() {
    assert_eq!(parse_u64("0"), Some(0));
    assert_eq!(parse_u64("007"), Some(7));
    assert_eq!(parse_u64("18446744073709551615"), Some(u64::MAX));
    assert_eq!(parse_u64("18446744073709551616"), None);
    assert_eq!(parse_u64(""), None);
    assert_eq!(parse_u64("12a"), None);
    assert_eq!(parse_u64("-1"), None);
    assert_eq!(parse_u64("1.5"), None);
}

#[test]
fn zero_price_is_the_documented_default() {
    assert_eq!(zero_price(), "0.00");
}

#[test]
fn limit_order_body_fields_in_wire_order() {
    let order = Order::limit(
        "btcusd",
        "20190110-4738721".to_string(),
        OrderSide::Buy,
        "5".to_string(),
        "3633.00".to_string(),
        true,
    );
    let fields = order.to_fields();
    let j = Json::Obj(fields);
    assert_eq!(
        j.to_text(),
        "{\"price\":\"3633.00\",\"amount\":\"5\",\"side\":\"buy\",\"symbol\":\"btcusd\",\
\"client_order_id\":\"20190110-4738721\",\"options\":[\"maker-or-cancel\"],\
\"type\":\"exchange limit\"}"
    );
}

#[test]
fn limit_order_without_post_only_has_no_options() {
    let order = Order::limit(
        "ethusd",
        "oid".to_string(),
        OrderSide::Sell,
        "2".to_string(),
        "100.00".to_string(),
        false,
    );
    assert_eq!(order.options.len(), 0);
    let j = Json::Obj(order.to_fields());
    assert!(j.to_text().contains("\"options\":[]"));
}
