//! Account-scoped bodies of the authenticated REST interface: balances, fee
//! volume, past trades, and cancellation results.  Monetary amounts stay
//! exact decimal text.
use vstd::prelude::*;
use crate::json::{Json, JsonVal, jv_seq, jv_get, lemma_jv_seq_len, lemma_jv_seq_index};
use crate::extract::{
    jv_str_field, jv_u64_field, jv_u32_field, jv_as_id, str_field, u64_field, u32_field,
};
use crate::structs::order::{OrderId, OrderSide, side_of_name, order_side_from_name};

verus! {

/// The balance the account holds in one currency.
pub struct AccountBalance {
    pub currency: String,
    pub amount: String,
    pub available: String,
    pub available_for_withdrawal: String,
}

/// The mathematical value of a balance entry.
pub ghost struct AccountBalanceV {
    pub currency: Seq<char>,
    pub amount: Seq<char>,
    pub available: Seq<char>,
    pub available_for_withdrawal: Seq<char>,
}

impl DeepView for AccountBalance {
    type V = AccountBalanceV;

    open spec fn deep_view(&self) -> AccountBalanceV {
        AccountBalanceV {
            currency: self.currency@,
            amount: self.amount@,
            available: self.available@,
            available_for_withdrawal: self.available_for_withdrawal@,
        }
    }
}

/// The balance entry a JSON value denotes.
pub open spec fn account_balance_of(j: JsonVal) -> Option<AccountBalanceV> {
    match (jv_str_field(j, "currency"@), jv_str_field(j, "amount"@), jv_str_field(
        j,
        "available"@,
    ), jv_str_field(j, "availableForWithdrawal"@)) {
        (Some(currency), Some(amount), Some(available), Some(available_for_withdrawal)) => Some(
            AccountBalanceV { currency, amount, available, available_for_withdrawal },
        ),
        _ => None,
    }
}

/// Reads one balance entry.
pub fn extract_account_balance(j: &Json) -> (r: Option<AccountBalance>)
    ensures
        r.deep_view() == account_balance_of(j.jv()),
{
    let currency = match str_field(j, "currency") {
        Some(v) => v,
        None => {
            return None;
        },
    };
    let amount = match str_field(j, "amount") {
        Some(v) => v,
        None => {
            return None;
        },
    };
    let available = match str_field(j, "available") {
        Some(v) => v,
        None => {
            return None;
        },
    };
    let available_for_withdrawal = match str_field(j, "availableForWithdrawal") {
        Some(v) => v,
        None => {
            return None;
        },
    };
    Some(AccountBalance { currency, amount, available, available_for_withdrawal })
}

/// The balance list a JSON value denotes: an array of balance entries.
pub open spec fn balances_of(v: JsonVal) -> Option<Seq<AccountBalanceV>> {
    match v {
        JsonVal::Arr(items) => balances_of_items(items),
        _ => None,
    }
}

/// The balance entries in an array, all or nothing.
pub open spec fn balances_of_items(items: Seq<JsonVal>) -> Option<Seq<AccountBalanceV>>
    decreases items.len(),
{
    if items.len() == 0 {
        Some(Seq::empty())
    } else {
        match account_balance_of(items[0]) {
            Some(b) => match balances_of_items(items.drop_first()) {
                Some(rest) => Some(seq![b] + rest),
                None => None,
            },
            None => None,
        }
    }
}

/// Reads a list of balance entries from a parsed body.
#[verifier::loop_isolation(false)]
pub fn extract_balances(j: &Json) -> (r: Option<Vec<AccountBalance>>)
    ensures
        r.deep_view() == balances_of(j.jv()),
{
    match j {
        Json::Arr(items) => {
            let ghost ivals = jv_seq(items@);
            proof {
                lemma_jv_seq_len(items@);
                assert(ivals.skip(0) =~= ivals);
            }
            let n = items.len();
            let mut out: Vec<AccountBalance> = Vec::new();
            let mut i: usize = 0;
            while i < n
                invariant
                    0 <= i <= n,
                    out@.len() == i,
                    balances_of_items(ivals) == match balances_of_items(ivals.skip(i as int)) {
                        Some(rest) => Some(out.deep_view() + rest),
                        None => None::<Seq<AccountBalanceV>>,
                    },
                decreases n - i,
            {
                proof {
                    lemma_jv_seq_index(items@, i as int);
                    assert(ivals.skip(i as int)[0] == ivals[i as int]);
                    assert(ivals.skip(i as int).drop_first() =~= ivals.skip(i + 1 as int));
                }
                match extract_account_balance(&items[i]) {
                    Some(b) => {
                        let ghost prev = out.deep_view();
                        let ghost bv = b.deep_view();
                        out.push(b);
                        proof {
                            assert(out.deep_view() =~= prev.push(bv));
                            match balances_of_items(ivals.skip(i + 1 as int)) {
                                Some(rest2) => {
                                    assert(prev + (seq![bv] + rest2) =~= out.deep_view() + rest2);
                                },
                                None => {},
                            }
                        }
                    },
                    None => {
                        return None;
                    },
                }
                i = i + 1;
            }
            proof {
                assert(ivals.skip(n as int) =~= Seq::<JsonVal>::empty());
                assert(out.deep_view() + Seq::<AccountBalanceV>::empty() =~= out.deep_view());
            }
            Some(out)
        },
        _ => None,
    }
}

/// The account's notional volume and fee schedule.
pub struct NotionalVolume {
    pub date: String,
    pub last_updated_ms: u64,
    pub web_maker_fee_bps: u32,
    pub web_taker_fee_bps: u32,
    pub web_auction_fee_bps: u32,
    pub api_maker_fee_bps: u32,
    pub api_taker_fee_bps: u32,
    pub api_auction_fee_bps: u32,
    pub fix_maker_fee_bps: u32,
    pub fix_taker_fee_bps: u32,
    pub fix_auction_fee_bps: u32,
    pub block_maker_fee_bps: u32,
    pub block_taker_fee_bps: u32,
    pub notional_30d_volume: u32,
}

/// The mathematical value of a notional-volume body.
pub ghost struct NotionalVolumeV {
    pub date: Seq<char>,
    pub last_updated_ms: u64,
    pub web_maker_fee_bps: u32,
    pub web_taker_fee_bps: u32,
    pub web_auction_fee_bps: u32,
    pub api_maker_fee_bps: u32,
    pub api_taker_fee_bps: u32,
    pub api_auction_fee_bps: u32,
    pub fix_maker_fee_bps: u32,
    pub fix_taker_fee_bps: u32,
    pub fix_auction_fee_bps: u32,
    pub block_maker_fee_bps: u32,
    pub block_taker_fee_bps: u32,
    pub notional_30d_volume: u32,
}

impl DeepView for NotionalVolume {
    type V = NotionalVolumeV;

    open spec fn deep_view(&self) -> NotionalVolumeV {
        NotionalVolumeV {
            date: self.date@,
            last_updated_ms: self.last_updated_ms,
            web_maker_fee_bps: self.web_maker_fee_bps,
            web_taker_fee_bps: self.web_taker_fee_bps,
            web_auction_fee_bps: self.web_auction_fee_bps,
            api_maker_fee_bps: self.api_maker_fee_bps,
            api_taker_fee_bps: self.api_taker_fee_bps,
            api_auction_fee_bps: self.api_auction_fee_bps,
            fix_maker_fee_bps: self.fix_maker_fee_bps,
            fix_taker_fee_bps: self.fix_taker_fee_bps,
            fix_auction_fee_bps: self.fix_auction_fee_bps,
            block_maker_fee_bps: self.block_maker_fee_bps,
            block_taker_fee_bps: self.block_taker_fee_bps,
            notional_30d_volume: self.notional_30d_volume,
        }
    }
}

/// The notional-volume body a JSON value denotes.
pub open spec fn notional_volume_of(j: JsonVal) -> Option<NotionalVolumeV> {
    let date = jv_str_field(j, "date"@);
    let last_updated_ms = jv_u64_field(j, "last_updated_ms"@);
    let web_maker_fee_bps = jv_u32_field(j, "web_maker_fee_bps"@);
    let web_taker_fee_bps = jv_u32_field(j, "web_taker_fee_bps"@);
    let web_auction_fee_bps = jv_u32_field(j, "web_auction_fee_bps"@);
    let api_maker_fee_bps = jv_u32_field(j, "api_maker_fee_bps"@);
    let api_taker_fee_bps = jv_u32_field(j, "api_taker_fee_bps"@);
    let api_auction_fee_bps = jv_u32_field(j, "api_auction_fee_bps"@);
    let fix_maker_fee_bps = jv_u32_field(j, "fix_maker_fee_bps"@);
    let fix_taker_fee_bps = jv_u32_field(j, "fix_taker_fee_bps"@);
    let fix_auction_fee_bps = jv_u32_field(j, "fix_auction_fee_bps"@);
    let block_maker_fee_bps = jv_u32_field(j, "block_maker_fee_bps"@);
    let block_taker_fee_bps = jv_u32_field(j, "block_taker_fee_bps"@);
    let notional_30d_volume = jv_u32_field(j, "notional_30d_volume"@);
    if date is Some && last_updated_ms is Some && web_maker_fee_bps is Some && web_taker_fee_bps
        is Some && web_auction_fee_bps is Some && api_maker_fee_bps is Some && api_taker_fee_bps
        is Some && api_auction_fee_bps is Some && fix_maker_fee_bps is Some && fix_taker_fee_bps
        is Some && fix_auction_fee_bps is Some && block_maker_fee_bps is Some
        && block_taker_fee_bps is Some && notional_30d_volume is Some {
        Some(
            NotionalVolumeV {
                date: date->0,
                last_updated_ms: last_updated_ms->0,
                web_maker_fee_bps: web_maker_fee_bps->0,
                web_taker_fee_bps: web_taker_fee_bps->0,
                web_auction_fee_bps: web_auction_fee_bps->0,
                api_maker_fee_bps: api_maker_fee_bps->0,
                api_taker_fee_bps: api_taker_fee_bps->0,
                api_auction_fee_bps: api_auction_fee_bps->0,
                fix_maker_fee_bps: fix_maker_fee_bps->0,
                fix_taker_fee_bps: fix_taker_fee_bps->0,
                fix_auction_fee_bps: fix_auction_fee_bps->0,
                block_maker_fee_bps: block_maker_fee_bps->0,
                block_taker_fee_bps: block_taker_fee_bps->0,
                notional_30d_volume: notional_30d_volume->0,
            },
        )
    } else {
        None
    }
}

/// Reads a notional-volume body.
pub fn extract_notional_volume(j: &Json) -> (r: Option<NotionalVolume>)
    ensures
        r.deep_view() == notional_volume_of(j.jv()),
{
    let date = match str_field(j, "date") {
        Some(v) => v,
        None => {
            return None;
        },
    };
    let last_updated_ms = match u64_field(j, "last_updated_ms") {
        Some(v) => v,
        None => {
            return None;
        },
    };
    let web_maker_fee_bps = match u32_field(j, "web_maker_fee_bps") {
        Some(v) => v,
        None => {
            return None;
        },
    };
    let web_taker_fee_bps = match u32_field(j, "web_taker_fee_bps") {
        Some(v) => v,
        None => {
            return None;
        },
    };
    let web_auction_fee_bps = match u32_field(j, "web_auction_fee_bps") {
        Some(v) => v,
        None => {
            return None;
        },
    };
    let api_maker_fee_bps = match u32_field(j, "api_maker_fee_bps") {
        Some(v) => v,
        None => {
            return None;
        },
    };
    let api_taker_fee_bps = match u32_field(j, "api_taker_fee_bps") {
        Some(v) => v,
        None => {
            return None;
        },
    };
    let api_auction_fee_bps = match u32_field(j, "api_auction_fee_bps") {
        Some(v) => v,
        None => {
            return None;
        },
    };
    let fix_maker_fee_bps = match u32_field(j, "fix_maker_fee_bps") {
        Some(v) => v,
        None => {
            return None;
        },
    };
    let fix_taker_fee_bps = match u32_field(j, "fix_taker_fee_bps") {
        Some(v) => v,
        None => {
            return None;
        },
    };
    let fix_auction_fee_bps = match u32_field(j, "fix_auction_fee_bps") {
        Some(v) => v,
        None => {
            return None;
        },
    };
    let block_maker_fee_bps = match u32_field(j, "block_maker_fee_bps") {
        Some(v) => v,
        None => {
            return None;
        },
    };
    let block_taker_fee_bps = match u32_field(j, "block_taker_fee_bps") {
        Some(v) => v,
        None => {
            return None;
        },
    };
    let notional_30d_volume = match u32_field(j, "notional_30d_volume") {
        Some(v) => v,
        None => {
            return None;
        },
    };
    Some(
        NotionalVolume {
            date,
            last_updated_ms,
            web_maker_fee_bps,
            web_taker_fee_bps,
            web_auction_fee_bps,
            api_maker_fee_bps,
            api_taker_fee_bps,
            api_auction_fee_bps,
            fix_maker_fee_bps,
            fix_taker_fee_bps,
            fix_auction_fee_bps,
            block_maker_fee_bps,
            block_taker_fee_bps,
            notional_30d_volume,
        },
    )
}

/// One of the account's past trades.
pub struct AccountTrade {
    pub price: String,
    pub amount: String,
    pub side: OrderSide,
    pub fee_amount: String,
    pub order_id: String,
}

/// The mathematical value of a past trade.
pub ghost struct AccountTradeV {
    pub price: Seq<char>,
    pub amount: Seq<char>,
    pub side: OrderSide,
    pub fee_amount: Seq<char>,
    pub order_id: Seq<char>,
}

impl DeepView for AccountTrade {
    type V = AccountTradeV;

    open spec fn deep_view(&self) -> AccountTradeV {
        AccountTradeV {
            price: self.price@,
            amount: self.amount@,
            side: self.side,
            fee_amount: self.fee_amount@,
            order_id: self.order_id@,
        }
    }
}

/// The past trade a JSON value denotes; the side travels under the key
/// `type`, spelled as the capitalized variant name (`Buy`/`Sell`), unlike
/// the lowercase sides of every other endpoint.
pub open spec fn account_trade_of(j: JsonVal) -> Option<AccountTradeV> {
    let side = match jv_str_field(j, "type"@) {
        Some(s) => side_of_name(s),
        None => None,
    };
    match (jv_str_field(j, "price"@), jv_str_field(j, "amount"@), side, jv_str_field(
        j,
        "fee_amount"@,
    ), jv_str_field(j, "order_id"@)) {
        (Some(price), Some(amount), Some(side), Some(fee_amount), Some(order_id)) => Some(
            AccountTradeV { price, amount, side, fee_amount, order_id },
        ),
        _ => None,
    }
}

/// Reads one past trade.
pub fn extract_account_trade(j: &Json) -> (r: Option<AccountTrade>)
    ensures
        r.deep_view() == account_trade_of(j.jv()),
{
    let price = match str_field(j, "price") {
        Some(v) => v,
        None => {
            return None;
        },
    };
    let amount = match str_field(j, "amount") {
        Some(v) => v,
        None => {
            return None;
        },
    };
    let side = match str_field(j, "type") {
        Some(s) => match order_side_from_name(s.as_str()) {
            Some(v) => v,
            None => {
                return None;
            },
        },
        None => {
            return None;
        },
    };
    let fee_amount = match str_field(j, "fee_amount") {
        Some(v) => v,
        None => {
            return None;
        },
    };
    let order_id = match str_field(j, "order_id") {
        Some(v) => v,
        None => {
            return None;
        },
    };
    Some(AccountTrade { price, amount, side, fee_amount, order_id })
}

/// The trade list a JSON value denotes.
pub open spec fn account_trades_of(v: JsonVal) -> Option<Seq<AccountTradeV>> {
    match v {
        JsonVal::Arr(items) => account_trades_of_items(items),
        _ => None,
    }
}

/// The past trades in an array, all or nothing.
pub open spec fn account_trades_of_items(items: Seq<JsonVal>) -> Option<Seq<AccountTradeV>>
    decreases items.len(),
{
    if items.len() == 0 {
        Some(Seq::empty())
    } else {
        match account_trade_of(items[0]) {
            Some(t) => match account_trades_of_items(items.drop_first()) {
                Some(rest) => Some(seq![t] + rest),
                None => None,
            },
            None => None,
        }
    }
}

/// Reads a list of past trades from a parsed body.
#[verifier::loop_isolation(false)]
pub fn extract_account_trades(j: &Json) -> (r: Option<Vec<AccountTrade>>)
    ensures
        r.deep_view() == account_trades_of(j.jv()),
{
    match j {
        Json::Arr(items) => {
            let ghost ivals = jv_seq(items@);
            proof {
                lemma_jv_seq_len(items@);
                assert(ivals.skip(0) =~= ivals);
            }
            let n = items.len();
            let mut out: Vec<AccountTrade> = Vec::new();
            let mut i: usize = 0;
            while i < n
                invariant
                    0 <= i <= n,
                    out@.len() == i,
                    account_trades_of_items(ivals) == match account_trades_of_items(
                        ivals.skip(i as int),
                    ) {
                        Some(rest) => Some(out.deep_view() + rest),
                        None => None::<Seq<AccountTradeV>>,
                    },
                decreases n - i,
            {
                proof {
                    lemma_jv_seq_index(items@, i as int);
                    assert(ivals.skip(i as int)[0] == ivals[i as int]);
                    assert(ivals.skip(i as int).drop_first() =~= ivals.skip(i + 1 as int));
                }
                match extract_account_trade(&items[i]) {
                    Some(t) => {
                        let ghost prev = out.deep_view();
                        let ghost tv = t.deep_view();
                        out.push(t);
                        proof {
                            assert(out.deep_view() =~= prev.push(tv));
                            match account_trades_of_items(ivals.skip(i + 1 as int)) {
                                Some(rest2) => {
                                    assert(prev + (seq![tv] + rest2) =~= out.deep_view() + rest2);
                                },
                                None => {},
                            }
                        }
                    },
                    None => {
                        return None;
                    },
                }
                i = i + 1;
            }
            proof {
                assert(ivals.skip(n as int) =~= Seq::<JsonVal>::empty());
                assert(out.deep_view() + Seq::<AccountTradeV>::empty() =~= out.deep_view());
            }
            Some(out)
        },
        _ => None,
    }
}

/// The identifiers a JSON value denotes: an array of numbers or digit
/// strings.
pub open spec fn ids_of(v: JsonVal) -> Option<Seq<OrderId>> {
    match v {
        JsonVal::Arr(items) => ids_of_items(items),
        _ => None,
    }
}

/// The identifiers in an array, all or nothing.
pub open spec fn ids_of_items(items: Seq<JsonVal>) -> Option<Seq<OrderId>>
    decreases items.len(),
{
    if items.len() == 0 {
        Some(Seq::empty())
    } else {
        match jv_as_id(items[0]) {
            Some(n) => match ids_of_items(items.drop_first()) {
                Some(rest) => Some(seq![OrderId(n)] + rest),
                None => None,
            },
            None => None,
        }
    }
}

/// Reads a list of order identifiers.
#[verifier::loop_isolation(false)]
pub fn extract_ids(j: &Json) -> (r: Option<Vec<OrderId>>)
    ensures
        r.deep_view() == ids_of(j.jv()),
{
    match j {
        Json::Arr(items) => {
            let ghost ivals = jv_seq(items@);
            proof {
                lemma_jv_seq_len(items@);
                assert(ivals.skip(0) =~= ivals);
            }
            let n = items.len();
            let mut out: Vec<OrderId> = Vec::new();
            let mut i: usize = 0;
            while i < n
                invariant
                    0 <= i <= n,
                    out@.len() == i,
                    ids_of_items(ivals) == match ids_of_items(ivals.skip(i as int)) {
                        Some(rest) => Some(out.deep_view() + rest),
                        None => None::<Seq<OrderId>>,
                    },
                decreases n - i,
            {
                proof {
                    lemma_jv_seq_index(items@, i as int);
                    assert(ivals.skip(i as int)[0] == ivals[i as int]);
                    assert(ivals.skip(i as int).drop_first() =~= ivals.skip(i + 1 as int));
                }
                match crate::structs::order::order_id_from_string(&items[i]) {
                    Some(id) => {
                        let ghost prev = out.deep_view();
                        out.push(id);
                        proof {
                            assert(out.deep_view() =~= prev.push(id));
                            match ids_of_items(ivals.skip(i + 1 as int)) {
                                Some(rest2) => {
                                    assert(prev + (seq![id] + rest2) =~= out.deep_view() + rest2);
                                },
                                None => {},
                            }
                        }
                    },
                    None => {
                        return None;
                    },
                }
                i = i + 1;
            }
            proof {
                assert(ivals.skip(n as int) =~= Seq::<JsonVal>::empty());
                assert(out.deep_view() + Seq::<OrderId>::empty() =~= out.deep_view());
            }
            Some(out)
        },
        _ => None,
    }
}

/// Which orders a cancel-all request rejected and which it cancelled.
pub struct CancelDetails {
    pub cancel_rejects: Vec<OrderId>,
    pub cancelled_orders: Vec<OrderId>,
}

/// The mathematical value of cancellation details.
pub ghost struct CancelDetailsV {
    pub cancel_rejects: Seq<OrderId>,
    pub cancelled_orders: Seq<OrderId>,
}

impl DeepView for CancelDetails {
    type V = CancelDetailsV;

    open spec fn deep_view(&self) -> CancelDetailsV {
        CancelDetailsV {
            cancel_rejects: self.cancel_rejects.deep_view(),
            cancelled_orders: self.cancelled_orders.deep_view(),
        }
    }
}

/// The exchange's reply to cancelling all orders.
pub struct CancelResponse {
    pub result: String,
    pub details: CancelDetails,
}

/// The mathematical value of a cancel reply.
pub ghost struct CancelResponseV {
    pub result: Seq<char>,
    pub details: CancelDetailsV,
}

impl DeepView for CancelResponse {
    type V = CancelResponseV;

    open spec fn deep_view(&self) -> CancelResponseV {
        CancelResponseV { result: self.result@, details: self.details.deep_view() }
    }
}

/// The cancel reply a JSON value denotes; the detail lists travel camelCase.
pub open spec fn cancel_response_of(j: JsonVal) -> Option<CancelResponseV> {
    let result = jv_str_field(j, "result"@);
    let details = match jv_get(j, "details"@) {
        Some(d) => match (jv_get(d, "cancelRejects"@), jv_get(d, "cancelledOrders"@)) {
            (Some(a), Some(b)) => match (ids_of(a), ids_of(b)) {
                (Some(cancel_rejects), Some(cancelled_orders)) => Some(
                    CancelDetailsV { cancel_rejects, cancelled_orders },
                ),
                _ => None,
            },
            _ => None,
        },
        None => None,
    };
    match (result, details) {
        (Some(result), Some(details)) => Some(CancelResponseV { result, details }),
        _ => None,
    }
}

/// Reads a cancel reply from a parsed body.
pub fn extract_cancel_response(j: &Json) -> (r: Option<CancelResponse>)
    ensures
        r.deep_view() == cancel_response_of(j.jv()),
{
    let result = match str_field(j, "result") {
        Some(v) => v,
        None => {
            return None;
        },
    };
    let details = match j.get("details") {
        Some(d) => {
            let cancel_rejects = match d.get("cancelRejects") {
                Some(a) => match extract_ids(a) {
                    Some(v) => v,
                    None => {
                        return None;
                    },
                },
                None => {
                    return None;
                },
            };
            let cancelled_orders = match d.get("cancelledOrders") {
                Some(b) => match extract_ids(b) {
                    Some(v) => v,
                    None => {
                        return None;
                    },
                },
                None => {
                    return None;
                },
            };
            CancelDetails { cancel_rejects, cancelled_orders }
        },
        None => {
            return None;
        },
    };
    Some(CancelResponse { result, details })
}

} // verus!
