//! Typed messages of the streaming feeds, and the fixed JSON shape of each:
//! the market-data tags, and the order-events channel's two shapes — tagged
//! control objects and bare arrays of order-status updates.
use vstd::prelude::*;
use crate::json::{Json, JsonVal, jv_get, jv_seq, lemma_jv_seq_len, lemma_jv_seq_index};
use crate::extract::{
    jv_as_str, jv_str_field, jv_u64_field, jv_bool_field, jv_opt_str_field, jv_str_field_or,
    jv_id_field, str_field, u64_field, bool_field, opt_str_field, str_field_or, id_field,
};
use crate::structs::order::{
    OrderId, OrderSide, OrderOptions, side_of_text, option_of_text, order_side_lowercase,
};
use crate::types::{GError, GErrorV};
use crate::parse::{json_of, parse_json};

verus! {

/// A single trade on the market-data feed.
pub struct Trade {
    pub price: String,
    pub quantity: String,
    pub side: OrderSide,
}

/// The mathematical value of a trade message.
pub ghost struct TradeV {
    pub price: Seq<char>,
    pub quantity: Seq<char>,
    pub side: OrderSide,
}

impl DeepView for Trade {
    type V = TradeV;

    open spec fn deep_view(&self) -> TradeV {
        TradeV { price: self.price@, quantity: self.quantity@, side: self.side }
    }
}

/// The trade a JSON value denotes.
pub open spec fn trade_of(j: JsonVal) -> Option<TradeV> {
    let side = match jv_str_field(j, "side"@) {
        Some(s) => side_of_text(s),
        None => None,
    };
    match (jv_str_field(j, "price"@), jv_str_field(j, "quantity"@), side) {
        (Some(price), Some(quantity), Some(side)) => Some(TradeV { price, quantity, side }),
        _ => None,
    }
}

/// Reads a trade message.
pub fn extract_trade(j: &Json) -> (r: Option<Trade>)
    ensures
        r.deep_view() == trade_of(j.jv()),
{
    let price = match str_field(j, "price") {
        Some(v) => v,
        None => {
            return None;
        },
    };
    let quantity = match str_field(j, "quantity") {
        Some(v) => v,
        None => {
            return None;
        },
    };
    let side = match str_field(j, "side") {
        Some(s) => match order_side_lowercase(s.as_str()) {
            Some(v) => v,
            None => {
                return None;
            },
        },
        None => {
            return None;
        },
    };
    Some(Trade { price, quantity, side })
}

/// One order-book price-level change, written on the wire as the array
/// `[side, price, quantity]`.
pub struct Level2Change {
    pub order: OrderSide,
    pub price: String,
    pub quantity: String,
}

/// The mathematical value of a price-level change.
pub ghost struct Level2ChangeV {
    pub order: OrderSide,
    pub price: Seq<char>,
    pub quantity: Seq<char>,
}

impl DeepView for Level2Change {
    type V = Level2ChangeV;

    open spec fn deep_view(&self) -> Level2ChangeV {
        Level2ChangeV { order: self.order, price: self.price@, quantity: self.quantity@ }
    }
}

/// The price-level change a JSON value denotes: an array of exactly a side,
/// a price and a quantity.
pub open spec fn l2_change_of(v: JsonVal) -> Option<Level2ChangeV> {
    match v {
        JsonVal::Arr(items) => if items.len() == 3 {
            match (jv_as_str(items[0]), jv_as_str(items[1]), jv_as_str(items[2])) {
                (Some(s), Some(price), Some(quantity)) => match side_of_text(s) {
                    Some(order) => Some(Level2ChangeV { order, price, quantity }),
                    None => None,
                },
                _ => None,
            }
        } else {
            None
        },
        _ => None,
    }
}

/// Reads one price-level change.
pub fn extract_l2_change(j: &Json) -> (r: Option<Level2Change>)
    ensures
        r.deep_view() == l2_change_of(j.jv()),
{
    match j {
        Json::Arr(items) => {
            proof {
                lemma_jv_seq_len(items@);
            }
            if items.len() != 3 {
                return None;
            }
            proof {
                lemma_jv_seq_index(items@, 0);
                lemma_jv_seq_index(items@, 1);
                lemma_jv_seq_index(items@, 2);
            }
            let order = match items[0] {
                Json::Str(ref s) => match order_side_lowercase(s.as_str()) {
                    Some(v) => v,
                    None => {
                        return None;
                    },
                },
                _ => {
                    return None;
                },
            };
            let price = match items[1] {
                Json::Str(ref s) => s.clone(),
                _ => {
                    return None;
                },
            };
            let quantity = match items[2] {
                Json::Str(ref s) => s.clone(),
                _ => {
                    return None;
                },
            };
            Some(Level2Change { order, price, quantity })
        },
        _ => None,
    }
}

/// One candle of aggregated market data.
pub struct Candle {
    pub time: u64,
    pub open: String,
    pub high: String,
    pub low: String,
    pub close: String,
    pub volume: String,
}

/// An auction event on the market-data feed; its fields are not read.
pub struct AuctionEvent {}

/// A periodic keep-alive control message.
pub struct Heartbeat {}

/// The subscription acknowledgement of the order-events feed.
pub struct Ack {
    pub account_id: u64,
    pub subscription_id: String,
}

/// The mathematical value of an acknowledgement.
pub ghost struct AckV {
    pub account_id: u64,
    pub subscription_id: Seq<char>,
}

impl DeepView for Ack {
    type V = AckV;

    open spec fn deep_view(&self) -> AckV {
        AckV { account_id: self.account_id, subscription_id: self.subscription_id@ }
    }
}

/// The acknowledgement a JSON value denotes; its fields travel camelCase.
pub open spec fn ack_of(j: JsonVal) -> Option<AckV> {
    match (jv_u64_field(j, "accountId"@), jv_str_field(j, "subscriptionId"@)) {
        (Some(account_id), Some(subscription_id)) => Some(AckV { account_id, subscription_id }),
        _ => None,
    }
}

/// Reads an acknowledgement.
pub fn extract_ack(j: &Json) -> (r: Option<Ack>)
    ensures
        r.deep_view() == ack_of(j.jv()),
{
    let account_id = match u64_field(j, "accountId") {
        Some(v) => v,
        None => {
            return None;
        },
    };
    let subscription_id = match str_field(j, "subscriptionId") {
        Some(v) => v,
        None => {
            return None;
        },
    };
    Some(Ack { account_id, subscription_id })
}

/// What happened to an order, as the order-events feed reports it.
#[derive(Clone, Copy, Debug, PartialEq, Eq, Structural)]
pub enum OrderEventType {
    Initial,
    Accepted,
    Rejected,
    Booked,
    Fill,
    Cancelled,
    CancelRejected,
    Closed,
}

impl DeepView for OrderEventType {
    type V = OrderEventType;

    open spec fn deep_view(&self) -> OrderEventType {
        *self
    }
}

/// The event type a piece of snake_case wire text denotes.
pub open spec fn event_type_of_text(s: Seq<char>) -> Option<OrderEventType> {
    if s == "initial"@ {
        Some(OrderEventType::Initial)
    } else if s == "accepted"@ {
        Some(OrderEventType::Accepted)
    } else if s == "rejected"@ {
        Some(OrderEventType::Rejected)
    } else if s == "booked"@ {
        Some(OrderEventType::Booked)
    } else if s == "fill"@ {
        Some(OrderEventType::Fill)
    } else if s == "cancelled"@ {
        Some(OrderEventType::Cancelled)
    } else if s == "cancel_rejected"@ {
        Some(OrderEventType::CancelRejected)
    } else if s == "closed"@ {
        Some(OrderEventType::Closed)
    } else {
        None
    }
}

impl OrderEventType {
    /// Reads an event type from its snake_case wire text.
    pub fn from_text(s: &str) -> (r: Option<OrderEventType>)
        ensures
            r == event_type_of_text(s@),
    {
        if crate::json::str_eq(s, "initial") {
            Some(OrderEventType::Initial)
        } else if crate::json::str_eq(s, "accepted") {
            Some(OrderEventType::Accepted)
        } else if crate::json::str_eq(s, "rejected") {
            Some(OrderEventType::Rejected)
        } else if crate::json::str_eq(s, "booked") {
            Some(OrderEventType::Booked)
        } else if crate::json::str_eq(s, "fill") {
            Some(OrderEventType::Fill)
        } else if crate::json::str_eq(s, "cancelled") {
            Some(OrderEventType::Cancelled)
        } else if crate::json::str_eq(s, "cancel_rejected") {
            Some(OrderEventType::CancelRejected)
        } else if crate::json::str_eq(s, "closed") {
            Some(OrderEventType::Closed)
        } else {
            None
        }
    }
}

/// Whose liquidity a fill took.
#[derive(Clone, Copy, Debug, PartialEq, Eq, Structural)]
pub enum FillLiquidity {
    Maker,
    Taker,
    Auction,
    Block,
    IndicatorOfInterest,
}

impl DeepView for FillLiquidity {
    type V = FillLiquidity;

    open spec fn deep_view(&self) -> FillLiquidity {
        *self
    }
}

/// The liquidity role a piece of wire text denotes; these travel with their
/// variant spelling unchanged.
pub open spec fn liquidity_of_text(s: Seq<char>) -> Option<FillLiquidity> {
    if s == "Maker"@ {
        Some(FillLiquidity::Maker)
    } else if s == "Taker"@ {
        Some(FillLiquidity::Taker)
    } else if s == "Auction"@ {
        Some(FillLiquidity::Auction)
    } else if s == "Block"@ {
        Some(FillLiquidity::Block)
    } else if s == "IndicatorOfInterest"@ {
        Some(FillLiquidity::IndicatorOfInterest)
    } else {
        None
    }
}

impl FillLiquidity {
    /// Reads a liquidity role from its wire text.
    pub fn from_text(s: &str) -> (r: Option<FillLiquidity>)
        ensures
            r == liquidity_of_text(s@),
    {
        if crate::json::str_eq(s, "Maker") {
            Some(FillLiquidity::Maker)
        } else if crate::json::str_eq(s, "Taker") {
            Some(FillLiquidity::Taker)
        } else if crate::json::str_eq(s, "Auction") {
            Some(FillLiquidity::Auction)
        } else if crate::json::str_eq(s, "Block") {
            Some(FillLiquidity::Block)
        } else if crate::json::str_eq(s, "IndicatorOfInterest") {
            Some(FillLiquidity::IndicatorOfInterest)
        } else {
            None
        }
    }
}

/// The fill embedded in an order-status update whose event type is a fill.
pub struct Fill {
    pub trade_id: String,
    pub liquidity: FillLiquidity,
    pub price: String,
    pub amount: String,
    pub fee: String,
    pub fee_currency: String,
}

/// The mathematical value of a fill record.
pub ghost struct FillV {
    pub trade_id: Seq<char>,
    pub liquidity: FillLiquidity,
    pub price: Seq<char>,
    pub amount: Seq<char>,
    pub fee: Seq<char>,
    pub fee_currency: Seq<char>,
}

impl DeepView for Fill {
    type V = FillV;

    open spec fn deep_view(&self) -> FillV {
        FillV {
            trade_id: self.trade_id@,
            liquidity: self.liquidity,
            price: self.price@,
            amount: self.amount@,
            fee: self.fee@,
            fee_currency: self.fee_currency@,
        }
    }
}

/// The fill record a JSON value denotes.
pub open spec fn fill_of(j: JsonVal) -> Option<FillV> {
    let liquidity = match jv_str_field(j, "liquidity"@) {
        Some(s) => liquidity_of_text(s),
        None => None,
    };
    match (jv_str_field(j, "trade_id"@), liquidity, jv_str_field(j, "price"@), jv_str_field(
        j,
        "amount"@,
    ), jv_str_field(j, "fee"@), jv_str_field(j, "fee_currency"@)) {
        (Some(trade_id), Some(liquidity), Some(price), Some(amount), Some(fee), Some(
            fee_currency,
        )) => Some(FillV { trade_id, liquidity, price, amount, fee, fee_currency }),
        _ => None,
    }
}

/// Reads a fill record.
pub fn extract_fill(j: &Json) -> (r: Option<Fill>)
    ensures
        r.deep_view() == fill_of(j.jv()),
{
    let trade_id = match str_field(j, "trade_id") {
        Some(v) => v,
        None => {
            return None;
        },
    };
    let liquidity = match str_field(j, "liquidity") {
        Some(s) => match FillLiquidity::from_text(s.as_str()) {
            Some(v) => v,
            None => {
                return None;
            },
        },
        None => {
            return None;
        },
    };
    let price = match str_field(j, "price") {
        Some(v) => v,
        None => {
            return None;
        },
    };
    let amount = match str_field(j, "amount") {
        Some(v) => v,
        None => {
            return None;
        },
    };
    let fee = match str_field(j, "fee") {
        Some(v) => v,
        None => {
            return None;
        },
    };
    let fee_currency = match str_field(j, "fee_currency") {
        Some(v) => v,
        None => {
            return None;
        },
    };
    Some(Fill { trade_id, liquidity, price, amount, fee, fee_currency })
}

/// The default text for amount fields the exchange omits.
pub fn zero_price() -> (r: String)
    ensures
        r@ == "0.00"@,
{
    "0.00".to_owned()
}

/// The price-level changes in an array, all or nothing.
pub open spec fn l2_changes_of_items(items: Seq<JsonVal>) -> Option<Seq<Level2ChangeV>>
    decreases items.len(),
{
    if items.len() == 0 {
        Some(Seq::empty())
    } else {
        match l2_change_of(items[0]) {
            Some(c) => match l2_changes_of_items(items.drop_first()) {
                Some(rest) => Some(seq![c] + rest),
                None => None,
            },
            None => None,
        }
    }
}

/// The trades in an array, all or nothing.
pub open spec fn trades_of_items(items: Seq<JsonVal>) -> Option<Seq<TradeV>>
    decreases items.len(),
{
    if items.len() == 0 {
        Some(Seq::empty())
    } else {
        match trade_of(items[0]) {
            Some(t) => match trades_of_items(items.drop_first()) {
                Some(rest) => Some(seq![t] + rest),
                None => None,
            },
            None => None,
        }
    }
}

/// The auction events in an array: each element must at least be an object.
pub open spec fn auctions_of_items(items: Seq<JsonVal>) -> Option<Seq<AuctionEvent>>
    decreases items.len(),
{
    if items.len() == 0 {
        Some(Seq::empty())
    } else {
        match items[0] {
            JsonVal::Obj(fields) => match auctions_of_items(items.drop_first()) {
                Some(rest) => Some(seq![AuctionEvent {  }] + rest),
                None => None,
            },
            _ => None,
        }
    }
}

/// An optional array field of price-level changes: absent or null is an
/// accepted absence.
pub open spec fn l2_changes_field(j: JsonVal, key: Seq<char>) -> Option<
    Option<Seq<Level2ChangeV>>,
> {
    match jv_get(j, key) {
        None => Some(None),
        Some(JsonVal::Null) => Some(None),
        Some(JsonVal::Arr(items)) => match l2_changes_of_items(items) {
            Some(cs) => Some(Some(cs)),
            None => None,
        },
        Some(_) => None,
    }
}

/// An optional array field of trades.
pub open spec fn trades_field(j: JsonVal, key: Seq<char>) -> Option<Option<Seq<TradeV>>> {
    match jv_get(j, key) {
        None => Some(None),
        Some(JsonVal::Null) => Some(None),
        Some(JsonVal::Arr(items)) => match trades_of_items(items) {
            Some(ts) => Some(Some(ts)),
            None => None,
        },
        Some(_) => None,
    }
}

/// An optional array field of auction events.
pub open spec fn auctions_field(j: JsonVal, key: Seq<char>) -> Option<
    Option<Seq<AuctionEvent>>,
> {
    match jv_get(j, key) {
        None => Some(None),
        Some(JsonVal::Null) => Some(None),
        Some(JsonVal::Arr(items)) => match auctions_of_items(items) {
            Some(evs) => Some(Some(evs)),
            None => None,
        },
        Some(_) => None,
    }
}

impl DeepView for AuctionEvent {
    type V = AuctionEvent;

    open spec fn deep_view(&self) -> AuctionEvent {
        *self
    }
}

impl DeepView for Heartbeat {
    type V = Heartbeat;

    open spec fn deep_view(&self) -> Heartbeat {
        *self
    }
}

/// An order-book update batch: which symbol, and what changed.
pub struct Level2 {
    pub symbol: String,
    pub changes: Option<Vec<Level2Change>>,
    pub trades: Option<Vec<Trade>>,
    pub auction_events: Option<Vec<AuctionEvent>>,
}

/// The mathematical value of an order-book update batch.
pub ghost struct Level2V {
    pub symbol: Seq<char>,
    pub changes: Option<Seq<Level2ChangeV>>,
    pub trades: Option<Seq<TradeV>>,
    pub auction_events: Option<Seq<AuctionEvent>>,
}

impl DeepView for Level2 {
    type V = Level2V;

    open spec fn deep_view(&self) -> Level2V {
        Level2V {
            symbol: self.symbol@,
            changes: self.changes.deep_view(),
            trades: self.trades.deep_view(),
            auction_events: self.auction_events.deep_view(),
        }
    }
}

/// The order-book update a JSON value denotes.
pub open spec fn level2_of(j: JsonVal) -> Option<Level2V> {
    match (jv_str_field(j, "symbol"@), l2_changes_field(j, "changes"@), trades_field(
        j,
        "trades"@,
    ), auctions_field(j, "auction_events"@)) {
        (Some(symbol), Some(changes), Some(trades), Some(auction_events)) => Some(
            Level2V { symbol, changes, trades, auction_events },
        ),
        _ => None,
    }
}

/// Reads the changes array of an order-book update.
#[verifier::loop_isolation(false)]
fn extract_l2_changes(items: &Vec<Json>) -> (r: Option<Vec<Level2Change>>)
    ensures
        r.deep_view() == l2_changes_of_items(jv_seq(items@)),
{
    let ghost ivals = jv_seq(items@);
    proof {
        lemma_jv_seq_len(items@);
        assert(ivals.skip(0) =~= ivals);
    }
    let n = items.len();
    let mut out: Vec<Level2Change> = Vec::new();
    let mut i: usize = 0;
    while i < n
        invariant
            0 <= i <= n,
            out@.len() == i,
            l2_changes_of_items(ivals) == match l2_changes_of_items(ivals.skip(i as int)) {
                Some(rest) => Some(out.deep_view() + rest),
                None => None::<Seq<Level2ChangeV>>,
            },
        decreases n - i,
    {
        proof {
            lemma_jv_seq_index(items@, i as int);
            assert(ivals.skip(i as int)[0] == ivals[i as int]);
            assert(ivals.skip(i as int).drop_first() =~= ivals.skip(i + 1 as int));
        }
        match extract_l2_change(&items[i]) {
            Some(c) => {
                let ghost prev = out.deep_view();
                let ghost cv = c.deep_view();
                out.push(c);
                proof {
                    assert(out.deep_view() =~= prev.push(cv));
                    match l2_changes_of_items(ivals.skip(i + 1 as int)) {
                        Some(rest2) => {
                            assert(prev + (seq![cv] + rest2) =~= out.deep_view() + rest2);
                        },
                        None => {},
                    }
                }
            },
            None => {
                return None;
            },
        }
        i = i + 1;
    }
    proof {
        assert(ivals.skip(n as int) =~= Seq::<JsonVal>::empty());
        assert(out.deep_view() + Seq::<Level2ChangeV>::empty() =~= out.deep_view());
    }
    Some(out)
}

/// Reads the trades array of an order-book update.
#[verifier::loop_isolation(false)]
fn extract_trades(items: &Vec<Json>) -> (r: Option<Vec<Trade>>)
    ensures
        r.deep_view() == trades_of_items(jv_seq(items@)),
{
    let ghost ivals = jv_seq(items@);
    proof {
        lemma_jv_seq_len(items@);
        assert(ivals.skip(0) =~= ivals);
    }
    let n = items.len();
    let mut out: Vec<Trade> = Vec::new();
    let mut i: usize = 0;
    while i < n
        invariant
            0 <= i <= n,
            out@.len() == i,
            trades_of_items(ivals) == match trades_of_items(ivals.skip(i as int)) {
                Some(rest) => Some(out.deep_view() + rest),
                None => None::<Seq<TradeV>>,
            },
        decreases n - i,
    {
        proof {
            lemma_jv_seq_index(items@, i as int);
            assert(ivals.skip(i as int)[0] == ivals[i as int]);
            assert(ivals.skip(i as int).drop_first() =~= ivals.skip(i + 1 as int));
        }
        match extract_trade(&items[i]) {
            Some(t) => {
                let ghost prev = out.deep_view();
                let ghost tv = t.deep_view();
                out.push(t);
                proof {
                    assert(out.deep_view() =~= prev.push(tv));
                    match trades_of_items(ivals.skip(i + 1 as int)) {
                        Some(rest2) => {
                            assert(prev + (seq![tv] + rest2) =~= out.deep_view() + rest2);
                        },
                        None => {},
                    }
                }
            },
            None => {
                return None;
            },
        }
        i = i + 1;
    }
    proof {
        assert(ivals.skip(n as int) =~= Seq::<JsonVal>::empty());
        assert(out.deep_view() + Seq::<TradeV>::empty() =~= out.deep_view());
    }
    Some(out)
}

/// Reads the auction-events array of an order-book update.
#[verifier::loop_isolation(false)]
fn extract_auctions(items: &Vec<Json>) -> (r: Option<Vec<AuctionEvent>>)
    ensures
        r.deep_view() == auctions_of_items(jv_seq(items@)),
{
    let ghost ivals = jv_seq(items@);
    proof {
        lemma_jv_seq_len(items@);
        assert(ivals.skip(0) =~= ivals);
    }
    let n = items.len();
    let mut out: Vec<AuctionEvent> = Vec::new();
    let mut i: usize = 0;
    while i < n
        invariant
            0 <= i <= n,
            out@.len() == i,
            auctions_of_items(ivals) == match auctions_of_items(ivals.skip(i as int)) {
                Some(rest) => Some(out.deep_view() + rest),
                None => None::<Seq<AuctionEvent>>,
            },
        decreases n - i,
    {
        proof {
            lemma_jv_seq_index(items@, i as int);
            assert(ivals.skip(i as int)[0] == ivals[i as int]);
            assert(ivals.skip(i as int).drop_first() =~= ivals.skip(i + 1 as int));
        }
        match items[i] {
            Json::Obj(_) => {
                let ghost prev = out.deep_view();
                out.push(AuctionEvent {  });
                proof {
                    assert(out.deep_view() =~= prev.push(AuctionEvent {  }));
                    match auctions_of_items(ivals.skip(i + 1 as int)) {
                        Some(rest2) => {
                            assert(prev + (seq![AuctionEvent {  }] + rest2) =~= out.deep_view()
                                + rest2);
                        },
                        None => {},
                    }
                }
            },
            _ => {
                return None;
            },
        }
        i = i + 1;
    }
    proof {
        assert(ivals.skip(n as int) =~= Seq::<JsonVal>::empty());
        assert(out.deep_view() + Seq::<AuctionEvent>::empty() =~= out.deep_view());
    }
    Some(out)
}

/// Reads an order-book update batch.
pub fn extract_level2(j: &Json) -> (r: Option<Level2>)
    ensures
        r.deep_view() == level2_of(j.jv()),
{
    let symbol = match str_field(j, "symbol") {
        Some(v) => v,
        None => {
            return None;
        },
    };
    let changes = match j.get("changes") {
        None => None,
        Some(v) => match v {
            Json::Null => None,
            Json::Arr(items) => match extract_l2_changes(items) {
                Some(cs) => Some(cs),
                None => {
                    return None;
                },
            },
            _ => {
                return None;
            },
        },
    };
    let trades = match j.get("trades") {
        None => None,
        Some(v) => match v {
            Json::Null => None,
            Json::Arr(items) => match extract_trades(items) {
                Some(ts) => Some(ts),
                None => {
                    return None;
                },
            },
            _ => {
                return None;
            },
        },
    };
    let auction_events = match j.get("auction_events") {
        None => None,
        Some(v) => match v {
            Json::Null => None,
            Json::Arr(items) => match extract_auctions(items) {
                Some(evs) => Some(evs),
                None => {
                    return None;
                },
            },
            _ => {
                return None;
            },
        },
    };
    Some(Level2 { symbol, changes, trades, auction_events })
}

/// An optional behavior field: the wire text of one execution option.
pub open spec fn behavior_field(j: JsonVal, key: Seq<char>) -> Option<Option<OrderOptions>> {
    match jv_get(j, key) {
        None => Some(None),
        Some(JsonVal::Null) => Some(None),
        Some(JsonVal::Str(s)) => match option_of_text(s) {
            Some(o) => Some(Some(o)),
            None => None,
        },
        Some(_) => None,
    }
}

/// An optional embedded fill record.
pub open spec fn fill_field(j: JsonVal, key: Seq<char>) -> Option<Option<FillV>> {
    match jv_get(j, key) {
        None => Some(None),
        Some(JsonVal::Null) => Some(None),
        Some(v) => match fill_of(v) {
            Some(f) => Some(Some(f)),
            None => None,
        },
    }
}

/// One order-status update of the order-events feed.  Amounts are exact
/// decimal text; the three execution amounts default to `0.00` when the
/// exchange omits them.
pub struct OrderStatus {
    pub event_type: OrderEventType,
    pub order_id: OrderId,
    pub client_order_id: Option<String>,
    pub event_id: Option<String>,
    pub api_session: Option<String>,
    pub symbol: String,
    pub side: OrderSide,
    pub behavior: Option<OrderOptions>,
    pub order_type: String,
    pub timestampms: u64,
    pub is_live: bool,
    pub is_cancelled: bool,
    pub is_hidden: bool,
    pub avg_execution_price: String,
    pub executed_amount: String,
    pub remaining_amount: String,
    pub original_amount: String,
    pub price: String,
    pub total_spend: Option<String>,
    pub reason: Option<String>,
    pub fill: Option<Fill>,
}

/// The mathematical value of an order-status update.
pub ghost struct OrderStatusV {
    pub event_type: OrderEventType,
    pub order_id: OrderId,
    pub client_order_id: Option<Seq<char>>,
    pub event_id: Option<Seq<char>>,
    pub api_session: Option<Seq<char>>,
    pub symbol: Seq<char>,
    pub side: OrderSide,
    pub behavior: Option<OrderOptions>,
    pub order_type: Seq<char>,
    pub timestampms: u64,
    pub is_live: bool,
    pub is_cancelled: bool,
    pub is_hidden: bool,
    pub avg_execution_price: Seq<char>,
    pub executed_amount: Seq<char>,
    pub remaining_amount: Seq<char>,
    pub original_amount: Seq<char>,
    pub price: Seq<char>,
    pub total_spend: Option<Seq<char>>,
    pub reason: Option<Seq<char>>,
    pub fill: Option<FillV>,
}

impl DeepView for OrderStatus {
    type V = OrderStatusV;

    open spec fn deep_view(&self) -> OrderStatusV {
        OrderStatusV {
            event_type: self.event_type,
            order_id: self.order_id,
            client_order_id: self.client_order_id.deep_view(),
            event_id: self.event_id.deep_view(),
            api_session: self.api_session.deep_view(),
            symbol: self.symbol@,
            side: self.side,
            behavior: self.behavior,
            order_type: self.order_type@,
            timestampms: self.timestampms,
            is_live: self.is_live,
            is_cancelled: self.is_cancelled,
            is_hidden: self.is_hidden,
            avg_execution_price: self.avg_execution_price@,
            executed_amount: self.executed_amount@,
            remaining_amount: self.remaining_amount@,
            original_amount: self.original_amount@,
            price: self.price@,
            total_spend: self.total_spend.deep_view(),
            reason: self.reason.deep_view(),
            fill: self.fill.deep_view(),
        }
    }
}

/// The order-status update a JSON value denotes, field by field.
pub open spec fn order_status_of(j: JsonVal) -> Option<OrderStatusV> {
    let event_type = match jv_str_field(j, "type"@) {
        Some(s) => event_type_of_text(s),
        None => None,
    };
    let order_id = jv_id_field(j, "order_id"@);
    let client_order_id = jv_opt_str_field(j, "client_order_id"@);
    let event_id = jv_opt_str_field(j, "event_id"@);
    let api_session = jv_opt_str_field(j, "api_session"@);
    let symbol = jv_str_field(j, "symbol"@);
    let side = match jv_str_field(j, "side"@) {
        Some(s) => side_of_text(s),
        None => None,
    };
    let behavior = behavior_field(j, "behavior"@);
    let order_type = jv_str_field(j, "order_type"@);
    let timestampms = jv_u64_field(j, "timestampms"@);
    let is_live = jv_bool_field(j, "is_live"@);
    let is_cancelled = jv_bool_field(j, "is_cancelled"@);
    let is_hidden = jv_bool_field(j, "is_hidden"@);
    let avg_execution_price = jv_str_field_or(j, "avg_execution_price"@, "0.00"@);
    let executed_amount = jv_str_field_or(j, "executed_amount"@, "0.00"@);
    let remaining_amount = jv_str_field_or(j, "remaining_amount"@, "0.00"@);
    let original_amount = jv_str_field(j, "original_amount"@);
    let price = jv_str_field(j, "price"@);
    let total_spend = jv_opt_str_field(j, "total_spend"@);
    let reason = jv_opt_str_field(j, "reason"@);
    let fill = fill_field(j, "fill"@);
    if event_type is Some && order_id is Some && client_order_id is Some && event_id is Some
        && api_session is Some && symbol is Some && side is Some && behavior is Some && order_type
        is Some && timestampms is Some && is_live is Some && is_cancelled is Some && is_hidden
        is Some && avg_execution_price is Some && executed_amount is Some && remaining_amount
        is Some && original_amount is Some && price is Some && total_spend is Some && reason
        is Some && fill is Some {
        Some(
            OrderStatusV {
                event_type: event_type->0,
                order_id: OrderId(order_id->0),
                client_order_id: client_order_id->0,
                event_id: event_id->0,
                api_session: api_session->0,
                symbol: symbol->0,
                side: side->0,
                behavior: behavior->0,
                order_type: order_type->0,
                timestampms: timestampms->0,
                is_live: is_live->0,
                is_cancelled: is_cancelled->0,
                is_hidden: is_hidden->0,
                avg_execution_price: avg_execution_price->0,
                executed_amount: executed_amount->0,
                remaining_amount: remaining_amount->0,
                original_amount: original_amount->0,
                price: price->0,
                total_spend: total_spend->0,
                reason: reason->0,
                fill: fill->0,
            },
        )
    } else {
        None
    }
}

/// Reads one order-status update.
pub fn extract_order_status(j: &Json) -> (r: Option<OrderStatus>)
    ensures
        r.deep_view() == order_status_of(j.jv()),
{
    let event_type = match str_field(j, "type") {
        Some(s) => match OrderEventType::from_text(s.as_str()) {
            Some(v) => v,
            None => {
                return None;
            },
        },
        None => {
            return None;
        },
    };
    let order_id = match id_field(j, "order_id") {
        Some(v) => OrderId(v),
        None => {
            return None;
        },
    };
    let client_order_id = match opt_str_field(j, "client_order_id") {
        Some(v) => v,
        None => {
            return None;
        },
    };
    let event_id = match opt_str_field(j, "event_id") {
        Some(v) => v,
        None => {
            return None;
        },
    };
    let api_session = match opt_str_field(j, "api_session") {
        Some(v) => v,
        None => {
            return None;
        },
    };
    let symbol = match str_field(j, "symbol") {
        Some(v) => v,
        None => {
            return None;
        },
    };
    let side = match str_field(j, "side") {
        Some(s) => match order_side_lowercase(s.as_str()) {
            Some(v) => v,
            None => {
                return None;
            },
        },
        None => {
            return None;
        },
    };
    let behavior = match j.get("behavior") {
        None => None,
        Some(v) => match v {
            Json::Null => None,
            Json::Str(s) => match OrderOptions::from_text(s.as_str()) {
                Some(o) => Some(o),
                None => {
                    return None;
                },
            },
            _ => {
                return None;
            },
        },
    };
    let order_type = match str_field(j, "order_type") {
        Some(v) => v,
        None => {
            return None;
        },
    };
    let timestampms = match u64_field(j, "timestampms") {
        Some(v) => v,
        None => {
            return None;
        },
    };
    let is_live = match bool_field(j, "is_live") {
        Some(v) => v,
        None => {
            return None;
        },
    };
    let is_cancelled = match bool_field(j, "is_cancelled") {
        Some(v) => v,
        None => {
            return None;
        },
    };
    let is_hidden = match bool_field(j, "is_hidden") {
        Some(v) => v,
        None => {
            return None;
        },
    };
    let avg_execution_price = match str_field_or(j, "avg_execution_price", "0.00") {
        Some(v) => v,
        None => {
            return None;
        },
    };
    let executed_amount = match str_field_or(j, "executed_amount", "0.00") {
        Some(v) => v,
        None => {
            return None;
        },
    };
    let remaining_amount = match str_field_or(j, "remaining_amount", "0.00") {
        Some(v) => v,
        None => {
            return None;
        },
    };
    let original_amount = match str_field(j, "original_amount") {
        Some(v) => v,
        None => {
            return None;
        },
    };
    let price = match str_field(j, "price") {
        Some(v) => v,
        None => {
            return None;
        },
    };
    let total_spend = match opt_str_field(j, "total_spend") {
        Some(v) => v,
        None => {
            return None;
        },
    };
    let reason = match opt_str_field(j, "reason") {
        Some(v) => v,
        None => {
            return None;
        },
    };
    let fill = match j.get("fill") {
        None => None,
        Some(v) => match v {
            Json::Null => None,
            _ => match extract_fill(v) {
                Some(f) => Some(f),
                None => {
                    return None;
                },
            },
        },
    };
    Some(
        OrderStatus {
            event_type,
            order_id,
            client_order_id,
            event_id,
            api_session,
            symbol,
            side,
            behavior,
            order_type,
            timestampms,
            is_live,
            is_cancelled,
            is_hidden,
            avg_execution_price,
            executed_amount,
            remaining_amount,
            original_amount,
            price,
            total_spend,
            reason,
            fill,
        },
    )
}

/// The order-status updates in an array, all or nothing.
pub open spec fn order_statuses_of_items(items: Seq<JsonVal>) -> Option<Seq<OrderStatusV>>
    decreases items.len(),
{
    if items.len() == 0 {
        Some(Seq::empty())
    } else {
        match order_status_of(items[0]) {
            Some(o) => match order_statuses_of_items(items.drop_first()) {
                Some(rest) => Some(seq![o] + rest),
                None => None,
            },
            None => None,
        }
    }
}

/// The order-status batch a JSON value denotes: a bare array of updates.
pub open spec fn order_statuses_of(v: JsonVal) -> Option<Seq<OrderStatusV>> {
    match v {
        JsonVal::Arr(items) => order_statuses_of_items(items),
        _ => None,
    }
}

/// Reads a bare array of order-status updates.
#[verifier::loop_isolation(false)]
pub fn extract_order_statuses(j: &Json) -> (r: Option<Vec<OrderStatus>>)
    ensures
        r.deep_view() == order_statuses_of(j.jv()),
{
    match j {
        Json::Arr(items) => {
            let ghost ivals = jv_seq(items@);
            proof {
                lemma_jv_seq_len(items@);
                assert(ivals.skip(0) =~= ivals);
            }
            let n = items.len();
            let mut out: Vec<OrderStatus> = Vec::new();
            let mut i: usize = 0;
            while i < n
                invariant
                    0 <= i <= n,
                    out@.len() == i,
                    order_statuses_of_items(ivals) == match order_statuses_of_items(
                        ivals.skip(i as int),
                    ) {
                        Some(rest) => Some(out.deep_view() + rest),
                        None => None::<Seq<OrderStatusV>>,
                    },
                decreases n - i,
            {
                proof {
                    lemma_jv_seq_index(items@, i as int);
                    assert(ivals.skip(i as int)[0] == ivals[i as int]);
                    assert(ivals.skip(i as int).drop_first() =~= ivals.skip(i + 1 as int));
                }
                match extract_order_status(&items[i]) {
                    Some(o) => {
                        let ghost prev = out.deep_view();
                        let ghost ov = o.deep_view();
                        out.push(o);
                        proof {
                            assert(out.deep_view() =~= prev.push(ov));
                            match order_statuses_of_items(ivals.skip(i + 1 as int)) {
                                Some(rest2) => {
                                    assert(prev + (seq![ov] + rest2) =~= out.deep_view() + rest2);
                                },
                                None => {},
                            }
                        }
                    },
                    None => {
                        return None;
                    },
                }
                i = i + 1;
            }
            proof {
                assert(ivals.skip(n as int) =~= Seq::<JsonVal>::empty());
                assert(out.deep_view() + Seq::<OrderStatusV>::empty() =~= out.deep_view());
            }
            Some(out)
        },
        _ => None,
    }
}

/// A tagged market-data frame, before conversion to the outward message
/// type: the exchange's tags are `l2_updates`, `trade` and `heartbeat`.
pub enum InputMDMessage {
    L2Updates(Level2),
    Trade(Trade),
    Heartbeat(Heartbeat),
}

/// The mathematical value of a tagged market-data frame.
pub ghost enum InputMDMessageV {
    L2Updates(Level2V),
    Trade(TradeV),
    Heartbeat,
}

impl DeepView for InputMDMessage {
    type V = InputMDMessageV;

    open spec fn deep_view(&self) -> InputMDMessageV {
        match self {
            InputMDMessage::L2Updates(l2) => InputMDMessageV::L2Updates(l2.deep_view()),
            InputMDMessage::Trade(t) => InputMDMessageV::Trade(t.deep_view()),
            InputMDMessage::Heartbeat(h) => InputMDMessageV::Heartbeat,
        }
    }
}

/// The tagged market-data frame a JSON value denotes.
pub open spec fn input_md_of(j: JsonVal) -> Option<InputMDMessageV> {
    match jv_str_field(j, "type"@) {
        Some(t) => if t == "l2_updates"@ {
            match level2_of(j) {
                Some(l2) => Some(InputMDMessageV::L2Updates(l2)),
                None => None,
            }
        } else if t == "trade"@ {
            match trade_of(j) {
                Some(tr) => Some(InputMDMessageV::Trade(tr)),
                None => None,
            }
        } else if t == "heartbeat"@ {
            Some(InputMDMessageV::Heartbeat)
        } else {
            None
        },
        None => None,
    }
}

/// Reads a tagged market-data frame: the `type` field picks the shape.
pub fn parse_input_md(j: &Json) -> (r: Option<InputMDMessage>)
    ensures
        r.deep_view() == input_md_of(j.jv()),
{
    let tag = match str_field(j, "type") {
        Some(t) => t,
        None => {
            return None;
        },
    };
    if crate::json::str_eq(tag.as_str(), "l2_updates") {
        match extract_level2(j) {
            Some(l2) => Some(InputMDMessage::L2Updates(l2)),
            None => None,
        }
    } else if crate::json::str_eq(tag.as_str(), "trade") {
        match extract_trade(j) {
            Some(t) => Some(InputMDMessage::Trade(t)),
            None => None,
        }
    } else if crate::json::str_eq(tag.as_str(), "heartbeat") {
        Some(InputMDMessage::Heartbeat(Heartbeat {  }))
    } else {
        None
    }
}

/// A classified market-data message: an order-book update batch, a trade, a
/// heartbeat, or a classification error carrying the raw frame.
pub enum MarketDataMessage {
    Level2(Level2),
    Trade(Trade),
    Heartbeat(Heartbeat),
    InternalError(GError),
}

/// The mathematical value of a classified market-data message.
pub ghost enum MarketDataMessageV {
    Level2(Level2V),
    Trade(TradeV),
    Heartbeat,
    InternalError(GErrorV),
}

impl DeepView for MarketDataMessage {
    type V = MarketDataMessageV;

    open spec fn deep_view(&self) -> MarketDataMessageV {
        match self {
            MarketDataMessage::Level2(l2) => MarketDataMessageV::Level2(l2.deep_view()),
            MarketDataMessage::Trade(t) => MarketDataMessageV::Trade(t.deep_view()),
            MarketDataMessage::Heartbeat(h) => MarketDataMessageV::Heartbeat,
            MarketDataMessage::InternalError(e) => MarketDataMessageV::InternalError(
                e.deep_view(),
            ),
        }
    }
}

/// The outward message a tagged frame becomes.
pub open spec fn md_from_input(im: InputMDMessageV) -> MarketDataMessageV {
    match im {
        InputMDMessageV::L2Updates(l2) => MarketDataMessageV::Level2(l2),
        InputMDMessageV::Trade(t) => MarketDataMessageV::Trade(t),
        InputMDMessageV::Heartbeat => MarketDataMessageV::Heartbeat,
    }
}

impl From<InputMDMessage> for MarketDataMessage {
    /// Re-tags a decoded market-data frame as the outward message type.
    fn from(im: InputMDMessage) -> (r: MarketDataMessage) {
        match im {
            InputMDMessage::L2Updates(l2) => MarketDataMessage::Level2(l2),
            InputMDMessage::Trade(t) => MarketDataMessage::Trade(t),
            InputMDMessage::Heartbeat(h) => MarketDataMessage::Heartbeat(h),
        }
    }
}

impl vstd::std_specs::convert::FromSpecImpl<InputMDMessage> for MarketDataMessage {
    open spec fn obeys_from_spec() -> bool {
        true
    }

    open spec fn from_spec(im: InputMDMessage) -> MarketDataMessage {
        match im {
            InputMDMessage::L2Updates(l2) => MarketDataMessage::Level2(l2),
            InputMDMessage::Trade(t) => MarketDataMessage::Trade(t),
            InputMDMessage::Heartbeat(h) => MarketDataMessage::Heartbeat(h),
        }
    }
}

/// How one market-data frame classifies: by its tag when the text parses and
/// the tagged shape holds, else the classification-error variant carrying
/// the raw frame.
pub open spec fn classify_md_of(p: Option<JsonVal>, raw: Seq<char>) -> MarketDataMessageV {
    match p {
        None => MarketDataMessageV::InternalError(GErrorV::SerdeDe { data: raw }),
        Some(j) => match input_md_of(j) {
            Some(im) => md_from_input(im),
            None => MarketDataMessageV::InternalError(GErrorV::SerdeDe { data: raw }),
        },
    }
}

/// Classifies one market-data text frame.  A frame that matches no known
/// shape becomes the error variant; it never stops the stream.
pub fn convert_md_msg(text: &str) -> (r: MarketDataMessage)
    ensures
        r.deep_view() == classify_md_of(json_of(text@), text@),
{
    match parse_json(text) {
        Ok(j) => match parse_input_md(&j) {
            Some(im) => MarketDataMessage::from(im),
            None => MarketDataMessage::InternalError(
                GError::SerdeDe {
                    error: "frame matched no known tag".to_owned(),
                    data: text.to_owned(),
                },
            ),
        },
        Err(e) => MarketDataMessage::InternalError(
            GError::SerdeDe { error: e, data: text.to_owned() },
        ),
    }
}

/// A tagged order-events control frame: the exchange's tags are `heartbeat`
/// and `subscription_ack`.
pub enum InputOrderMessage {
    Heartbeat(Heartbeat),
    SubscriptionAck(Ack),
}

/// The mathematical value of a tagged control frame.
pub ghost enum InputOrderMessageV {
    Heartbeat,
    SubscriptionAck(AckV),
}

impl DeepView for InputOrderMessage {
    type V = InputOrderMessageV;

    open spec fn deep_view(&self) -> InputOrderMessageV {
        match self {
            InputOrderMessage::Heartbeat(h) => InputOrderMessageV::Heartbeat,
            InputOrderMessage::SubscriptionAck(a) => InputOrderMessageV::SubscriptionAck(
                a.deep_view(),
            ),
        }
    }
}

/// The tagged control frame a JSON value denotes.
pub open spec fn input_order_of(j: JsonVal) -> Option<InputOrderMessageV> {
    match jv_str_field(j, "type"@) {
        Some(t) => if t == "heartbeat"@ {
            Some(InputOrderMessageV::Heartbeat)
        } else if t == "subscription_ack"@ {
            match ack_of(j) {
                Some(a) => Some(InputOrderMessageV::SubscriptionAck(a)),
                None => None,
            }
        } else {
            None
        },
        None => None,
    }
}

/// Reads a tagged control frame of the order-events feed.
pub fn parse_input_order(j: &Json) -> (r: Option<InputOrderMessage>)
    ensures
        r.deep_view() == input_order_of(j.jv()),
{
    let tag = match str_field(j, "type") {
        Some(t) => t,
        None => {
            return None;
        },
    };
    if crate::json::str_eq(tag.as_str(), "heartbeat") {
        Some(InputOrderMessage::Heartbeat(Heartbeat {  }))
    } else if crate::json::str_eq(tag.as_str(), "subscription_ack") {
        match extract_ack(j) {
            Some(a) => Some(InputOrderMessage::SubscriptionAck(a)),
            None => None,
        }
    } else {
        None
    }
}

/// A classified order-events message: a control frame, a batch of
/// order-status updates in arrival order, or a classification error.
pub enum OrderMessage {
    Heartbeat(Heartbeat),
    SubscriptionAck(Ack),
    InternalError(GError),
    Orders(Vec<OrderStatus>),
}

/// The mathematical value of a classified order-events message.
pub ghost enum OrderMessageV {
    Heartbeat,
    SubscriptionAck(AckV),
    InternalError(GErrorV),
    Orders(Seq<OrderStatusV>),
}

impl DeepView for OrderMessage {
    type V = OrderMessageV;

    open spec fn deep_view(&self) -> OrderMessageV {
        match self {
            OrderMessage::Heartbeat(h) => OrderMessageV::Heartbeat,
            OrderMessage::SubscriptionAck(a) => OrderMessageV::SubscriptionAck(a.deep_view()),
            OrderMessage::InternalError(e) => OrderMessageV::InternalError(e.deep_view()),
            OrderMessage::Orders(os) => OrderMessageV::Orders(os.deep_view()),
        }
    }
}

/// The outward message a control frame becomes.
pub open spec fn order_from_input(im: InputOrderMessageV) -> OrderMessageV {
    match im {
        InputOrderMessageV::Heartbeat => OrderMessageV::Heartbeat,
        InputOrderMessageV::SubscriptionAck(a) => OrderMessageV::SubscriptionAck(a),
    }
}

impl From<InputOrderMessage> for OrderMessage {
    /// Re-tags a decoded control frame as the outward message type.
    fn from(im: InputOrderMessage) -> (r: OrderMessage) {
        match im {
            InputOrderMessage::SubscriptionAck(a) => OrderMessage::SubscriptionAck(a),
            InputOrderMessage::Heartbeat(h) => OrderMessage::Heartbeat(h),
        }
    }
}

impl vstd::std_specs::convert::FromSpecImpl<InputOrderMessage> for OrderMessage {
    open spec fn obeys_from_spec() -> bool {
        true
    }

    open spec fn from_spec(im: InputOrderMessage) -> OrderMessage {
        match im {
            InputOrderMessage::SubscriptionAck(a) => OrderMessage::SubscriptionAck(a),
            InputOrderMessage::Heartbeat(h) => OrderMessage::Heartbeat(h),
        }
    }
}

/// How one order-events frame classifies.  The channel carries two shapes,
/// tried in order: first a tagged control object, then a bare array of
/// order-status updates; a frame matching neither becomes the error variant.
pub open spec fn classify_order_of(p: Option<JsonVal>, raw: Seq<char>) -> OrderMessageV {
    match p {
        None => OrderMessageV::InternalError(GErrorV::SerdeDe { data: raw }),
        Some(j) => match input_order_of(j) {
            Some(im) => order_from_input(im),
            None => match order_statuses_of(j) {
                Some(os) => OrderMessageV::Orders(os),
                None => OrderMessageV::InternalError(GErrorV::SerdeDe { data: raw }),
            },
        },
    }
}

/// Classifies one order-events text frame: tagged control object first, then
/// a bare array of order-status updates, else the error variant.  A bad
/// frame never stops the stream.
pub fn convert_order_msg(text: &str) -> (r: OrderMessage)
    ensures
        r.deep_view() == classify_order_of(json_of(text@), text@),
{
    match parse_json(text) {
        Ok(j) => match parse_input_order(&j) {
            Some(im) => OrderMessage::from(im),
            None => match extract_order_statuses(&j) {
                Some(os) => OrderMessage::Orders(os),
                None => OrderMessage::InternalError(
                    GError::SerdeDe {
                        error: "frame matched neither shape".to_owned(),
                        data: text.to_owned(),
                    },
                ),
            },
        },
        Err(e) => OrderMessage::InternalError(
            GError::SerdeDe { error: e, data: text.to_owned() },
        ),
    }
}

} // verus!
