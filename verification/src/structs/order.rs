//! Orders: identifiers, sides, execution options, and the request body of a
//! new order, with the exact text each takes on the wire.
use vstd::prelude::*;
use crate::json::{
    Json, JsonVal, jv_seq, jv_fields, str_eq, lemma_jv_seq_len, lemma_jv_seq_index,
    lemma_jv_fields_len, lemma_jv_fields_index, jv_get,
};
use crate::extract::{
    jv_as_id, jv_id_field, jv_str_field, jv_bool_field, jv_opt_str_field, str_field, bool_field,
    opt_str_field, id_field,
};

verus! {

/// An order identifier.  The exchange writes it as a JSON number or as a
/// string of digits; both normalize to this one integer-backed type.
#[derive(Clone, Copy, Debug, PartialEq, Eq, Structural)]
pub struct OrderId(pub u64);

impl DeepView for OrderId {
    type V = OrderId;

    open spec fn deep_view(&self) -> OrderId {
        *self
    }
}

/// Side of an order: buying or selling.
#[derive(Clone, Copy, Debug, PartialEq, Eq, Structural)]
pub enum OrderSide {
    Buy,
    Sell,
}

impl DeepView for OrderSide {
    type V = OrderSide;

    open spec fn deep_view(&self) -> OrderSide {
        *self
    }
}

/// Execution options an order can carry, written kebab-case on the wire.
#[derive(Clone, Copy, Debug, PartialEq, Eq, Structural)]
pub enum OrderOptions {
    MakerOrCancel,
    ImmediateOrCancel,
    FillOrKill,
    AuctionOnly,
    IndicationOfInterest,
}

impl DeepView for OrderOptions {
    type V = OrderOptions;

    open spec fn deep_view(&self) -> OrderOptions {
        *self
    }
}

/// Kind of an order, written as the exchange's phrase on the wire.
#[derive(Clone, Copy, Debug, PartialEq, Eq, Structural)]
pub enum OrderType {
    Limit,
    StopLimit,
}

impl DeepView for OrderType {
    type V = OrderType;

    open spec fn deep_view(&self) -> OrderType {
        *self
    }
}

/// An order identifier read from a JSON value: a number, or a string of
/// digits.
pub open spec fn order_id_of(v: JsonVal) -> Option<OrderId> {
    match jv_as_id(v) {
        Some(n) => Some(OrderId(n)),
        None => None,
    }
}

/// Reads an `OrderId` from its JSON value, accepting a number or a string of
/// digits.
pub fn order_id_from_string(j: &Json) -> (r: Option<OrderId>)
    ensures
        r == order_id_of(j.jv()),
{
    match j {
        Json::Num(s) => match crate::num::parse_u64(s.as_str()) {
            Some(n) => Some(OrderId(n)),
            None => None,
        },
        Json::Str(s) => match crate::num::parse_u64(s.as_str()) {
            Some(n) => Some(OrderId(n)),
            None => None,
        },
        _ => None,
    }
}

/// The wire text of a side.
pub open spec fn side_text(s: OrderSide) -> Seq<char> {
    match s {
        OrderSide::Buy => "buy"@,
        OrderSide::Sell => "sell"@,
    }
}

/// The side a piece of lowercase wire text denotes.
pub open spec fn side_of_text(s: Seq<char>) -> Option<OrderSide> {
    if s == "buy"@ {
        Some(OrderSide::Buy)
    } else if s == "sell"@ {
        Some(OrderSide::Sell)
    } else {
        None
    }
}

/// Reads a side from its lowercase wire text: exactly `buy` or `sell`.
pub fn order_side_lowercase(s: &str) -> (r: Option<OrderSide>)
    ensures
        r == side_of_text(s@),
{
    if str_eq(s, "buy") {
        Some(OrderSide::Buy)
    } else if str_eq(s, "sell") {
        Some(OrderSide::Sell)
    } else {
        None
    }
}

impl OrderSide {
    /// The lowercase wire text of this side.
    pub fn lowercase(&self) -> (r: &'static str)
        ensures
            r@ == side_text(*self),
    {
        match self {
            OrderSide::Buy => "buy",
            OrderSide::Sell => "sell",
        }
    }
}

/// The side a capitalized variant name denotes.  The past-trades endpoint
/// writes sides this way; every other side field travels lowercase.
pub open spec fn side_of_name(s: Seq<char>) -> Option<OrderSide> {
    if s == "Buy"@ {
        Some(OrderSide::Buy)
    } else if s == "Sell"@ {
        Some(OrderSide::Sell)
    } else {
        None
    }
}

/// Reads a side from its capitalized variant name: exactly `Buy` or `Sell`.
pub fn order_side_from_name(s: &str) -> (r: Option<OrderSide>)
    ensures
        r == side_of_name(s@),
{
    if str_eq(s, "Buy") {
        Some(OrderSide::Buy)
    } else if str_eq(s, "Sell") {
        Some(OrderSide::Sell)
    } else {
        None
    }
}

/// Law: a side's wire text reads back as the same side.
pub proof fn lemma_side_round_trip(s: OrderSide)
    ensures
        side_of_text(side_text(s)) == Some(s),
{
    reveal_strlit("buy");
    reveal_strlit("sell");
    assert("buy"@.len() == 3);
    assert("sell"@.len() == 4);
}

/// The kebab-case wire text of an execution option.
pub open spec fn option_text(o: OrderOptions) -> Seq<char> {
    match o {
        OrderOptions::MakerOrCancel => "maker-or-cancel"@,
        OrderOptions::ImmediateOrCancel => "immediate-or-cancel"@,
        OrderOptions::FillOrKill => "fill-or-kill"@,
        OrderOptions::AuctionOnly => "auction-only"@,
        OrderOptions::IndicationOfInterest => "indication-of-interest"@,
    }
}

/// The execution option a piece of kebab-case wire text denotes.
pub open spec fn option_of_text(s: Seq<char>) -> Option<OrderOptions> {
    if s == "maker-or-cancel"@ {
        Some(OrderOptions::MakerOrCancel)
    } else if s == "immediate-or-cancel"@ {
        Some(OrderOptions::ImmediateOrCancel)
    } else if s == "fill-or-kill"@ {
        Some(OrderOptions::FillOrKill)
    } else if s == "auction-only"@ {
        Some(OrderOptions::AuctionOnly)
    } else if s == "indication-of-interest"@ {
        Some(OrderOptions::IndicationOfInterest)
    } else {
        None
    }
}

impl OrderOptions {
    /// The kebab-case wire text of this option.
    pub fn text(&self) -> (r: &'static str)
        ensures
            r@ == option_text(*self),
    {
        match self {
            OrderOptions::MakerOrCancel => "maker-or-cancel",
            OrderOptions::ImmediateOrCancel => "immediate-or-cancel",
            OrderOptions::FillOrKill => "fill-or-kill",
            OrderOptions::AuctionOnly => "auction-only",
            OrderOptions::IndicationOfInterest => "indication-of-interest",
        }
    }

    /// Reads an execution option from its kebab-case wire text.
    pub fn from_text(s: &str) -> (r: Option<OrderOptions>)
        ensures
            r == option_of_text(s@),
    {
        if str_eq(s, "maker-or-cancel") {
            Some(OrderOptions::MakerOrCancel)
        } else if str_eq(s, "immediate-or-cancel") {
            Some(OrderOptions::ImmediateOrCancel)
        } else if str_eq(s, "fill-or-kill") {
            Some(OrderOptions::FillOrKill)
        } else if str_eq(s, "auction-only") {
            Some(OrderOptions::AuctionOnly)
        } else if str_eq(s, "indication-of-interest") {
            Some(OrderOptions::IndicationOfInterest)
        } else {
            None
        }
    }
}

/// Law: an execution option's wire text reads back as the same option, so
/// an option written on an outgoing order means the same thing when it comes
/// back on an order event.
pub proof fn lemma_option_round_trip(o: OrderOptions)
    ensures
        option_of_text(option_text(o)) == Some(o),
{
    reveal_strlit("maker-or-cancel");
    reveal_strlit("immediate-or-cancel");
    reveal_strlit("fill-or-kill");
    reveal_strlit("auction-only");
    reveal_strlit("indication-of-interest");
    assert("maker-or-cancel"@.len() == 15);
    assert("immediate-or-cancel"@.len() == 19);
    assert("fill-or-kill"@.len() == 12);
    assert("auction-only"@.len() == 12);
    assert("indication-of-interest"@.len() == 22);
    assert("auction-only"@[0] != "fill-or-kill"@[0]);
}

/// The wire text of an order kind.
pub open spec fn order_type_text(t: OrderType) -> Seq<char> {
    match t {
        OrderType::Limit => "exchange limit"@,
        OrderType::StopLimit => "exchange stop limit"@,
    }
}

impl OrderType {
    /// The wire text of this order kind.
    pub fn text(&self) -> (r: &'static str)
        ensures
            r@ == order_type_text(*self),
    {
        match self {
            OrderType::Limit => "exchange limit",
            OrderType::StopLimit => "exchange stop limit",
        }
    }
}

/// A new-order request body.  Price and amount are exact decimal text, never
/// floating point.
pub struct Order {
    pub price: String,
    pub amount: String,
    pub side: OrderSide,
    pub symbol: String,
    pub client_order_id: String,
    pub options: Vec<OrderOptions>,
    pub order_type: OrderType,
}

/// The mathematical value of an order body.
pub ghost struct OrderV {
    pub price: Seq<char>,
    pub amount: Seq<char>,
    pub side: OrderSide,
    pub symbol: Seq<char>,
    pub client_order_id: Seq<char>,
    pub options: Seq<OrderOptions>,
    pub order_type: OrderType,
}

impl DeepView for Order {
    type V = OrderV;

    open spec fn deep_view(&self) -> OrderV {
        OrderV {
            price: self.price@,
            amount: self.amount@,
            side: self.side,
            symbol: self.symbol@,
            client_order_id: self.client_order_id@,
            options: self.options@,
            order_type: self.order_type,
        }
    }
}

/// The JSON fields of an order body, in wire order: price, amount, side,
/// symbol, client order id, options, type.
pub open spec fn order_fields(o: OrderV) -> Seq<(Seq<char>, JsonVal)> {
    seq![
        ("price"@, JsonVal::Str(o.price)),
        ("amount"@, JsonVal::Str(o.amount)),
        ("side"@, JsonVal::Str(side_text(o.side))),
        ("symbol"@, JsonVal::Str(o.symbol)),
        ("client_order_id"@, JsonVal::Str(o.client_order_id)),
        ("options"@, JsonVal::Arr(Seq::new(o.options.len(), |i: int| JsonVal::Str(option_text(o.options[i]))))),
        ("type"@, JsonVal::Str(order_type_text(o.order_type))),
    ]
}

impl Order {
    /// A limit order.  When `post_only` is set the order carries the
    /// maker-or-cancel option and no other; otherwise it carries none.
    pub fn limit(
        symbol: &str,
        client_order_id: String,
        side: OrderSide,
        amount: String,
        price: String,
        post_only: bool,
    ) -> (r: Order)
        ensures
            r.price == price,
            r.amount == amount,
            r.side == side,
            r.symbol@ == symbol@,
            r.client_order_id == client_order_id,
            r.options@ == if post_only {
                seq![OrderOptions::MakerOrCancel]
            } else {
                Seq::<OrderOptions>::empty()
            },
            r.order_type == OrderType::Limit,
    {
        let mut options: Vec<OrderOptions> = Vec::new();
        if post_only {
            options.push(OrderOptions::MakerOrCancel);
        }
        proof {
            if post_only {
                assert(options@ =~= seq![OrderOptions::MakerOrCancel]);
            } else {
                assert(options@ =~= Seq::<OrderOptions>::empty());
            }
        }
        Order {
            price,
            amount,
            side,
            symbol: symbol.to_owned(),
            client_order_id,
            options,
            order_type: OrderType::Limit,
        }
    }

    /// The body fields this order contributes to the envelope, in wire
    /// order.
    #[verifier::loop_isolation(false)]
    pub fn to_fields(&self) -> (r: Vec<(String, Json)>)
        ensures
            jv_fields(r@) == order_fields(self.deep_view()),
    {
        let mut opts: Vec<Json> = Vec::new();
        let n = self.options.len();
        let mut i: usize = 0;
        while i < n
            invariant
                0 <= i <= n,
                opts@.len() == i,
                forall|k: int|
                    0 <= k < i ==> opts@[k].jv() == JsonVal::Str(
                        option_text(self.options@[k]),
                    ),
            decreases n - i,
        {
            opts.push(Json::Str(self.options[i].text().to_owned()));
            i = i + 1;
        }
        let ghost opt_vals = Seq::new(
            self.options@.len(),
            |k: int| JsonVal::Str(option_text(self.options@[k])),
        );
        proof {
            lemma_jv_seq_len(opts@);
            assert forall|k: int| 0 <= k < n implies jv_seq(opts@)[k] == opt_vals[k] by {
                lemma_jv_seq_index(opts@, k);
            }
            assert(jv_seq(opts@) =~= opt_vals);
        }
        let mut fields: Vec<(String, Json)> = Vec::new();
        fields.push(("price".to_owned(), Json::Str(self.price.clone())));
        fields.push(("amount".to_owned(), Json::Str(self.amount.clone())));
        fields.push(("side".to_owned(), Json::Str(self.side.lowercase().to_owned())));
        fields.push(("symbol".to_owned(), Json::Str(self.symbol.clone())));
        fields.push(("client_order_id".to_owned(), Json::Str(self.client_order_id.clone())));
        fields.push(("options".to_owned(), Json::Arr(opts)));
        fields.push(("type".to_owned(), Json::Str(self.order_type.text().to_owned())));
        proof {
            lemma_jv_fields_len(fields@);
            assert forall|k: int| 0 <= k < 7 implies jv_fields(fields@)[k] == order_fields(
                self.deep_view(),
            )[k] by {
                lemma_jv_fields_index(fields@, k);
            }
            assert(jv_fields(fields@) =~= order_fields(self.deep_view()));
        }
        fields
    }
}

/// Reads a list of execution options from a JSON array of their wire texts.
#[verifier::loop_isolation(false)]
pub fn parse_options(j: &Json) -> (r: Option<Vec<OrderOptions>>)
    ensures
        r.deep_view() == options_of(j.jv()),
{
    match j {
        Json::Arr(items) => {
            let ghost ivals = jv_seq(items@);
            proof {
                lemma_jv_seq_len(items@);
                assert(ivals.skip(0) =~= ivals);
            }
            let n = items.len();
            let mut out: Vec<OrderOptions> = Vec::new();
            let mut i: usize = 0;
            while i < n
                invariant
                    0 <= i <= n,
                    out@.len() == i,
                    options_of_items(ivals) == match options_of_items(ivals.skip(i as int)) {
                        Some(rest) => Some(out@ + rest),
                        None => None::<Seq<OrderOptions>>,
                    },
                decreases n - i,
            {
                proof {
                    lemma_jv_seq_index(items@, i as int);
                    assert(ivals.skip(i as int)[0] == ivals[i as int]);
                    assert(ivals.skip(i as int).drop_first() =~= ivals.skip(i + 1 as int));
                }
                let o = match items[i] {
                    Json::Str(ref s) => OrderOptions::from_text(s.as_str()),
                    _ => None,
                };
                match o {
                    Some(op) => {
                        let ghost prev = out@;
                        out.push(op);
                        proof {
                            match options_of_items(ivals.skip(i + 1 as int)) {
                                Some(rest2) => {
                                    assert(prev + (seq![op] + rest2) =~= out@ + rest2);
                                },
                                None => {},
                            }
                        }
                    },
                    None => {
                        return None;
                    },
                }
                i = i + 1;
            }
            proof {
                assert(ivals.skip(n as int) =~= Seq::<JsonVal>::empty());
                assert(options_of_items(ivals) == Some(out@ + Seq::<OrderOptions>::empty()));
                assert(out@ + Seq::<OrderOptions>::empty() =~= out@);
            }
            Some(out)
        },
        _ => None,
    }
}

/// The execution options a JSON value denotes: an array whose every element
/// is the wire text of an option.
pub open spec fn options_of(v: JsonVal) -> Option<Seq<OrderOptions>> {
    match v {
        JsonVal::Arr(items) => options_of_items(items),
        _ => None,
    }
}

/// The options in an array of JSON values, all or nothing.
pub open spec fn options_of_items(items: Seq<JsonVal>) -> Option<Seq<OrderOptions>>
    decreases items.len(),
{
    if items.len() == 0 {
        Some(Seq::empty())
    } else {
        match items[0] {
            JsonVal::Str(s) => match option_of_text(s) {
                Some(o) => match options_of_items(items.drop_first()) {
                    Some(rest) => Some(seq![o] + rest),
                    None => None,
                },
                None => None,
            },
            _ => None,
        }
    }
}

/// The exchange's reply to creating or cancelling an order.
pub struct OrderResponse {
    pub order_id: OrderId,
    pub client_order_id: Option<String>,
    pub symbol: String,
    pub exchange: String,
    pub price: String,
    pub avg_execution_price: String,
    pub side: OrderSide,
    pub order_type: String,
    pub options: Vec<OrderOptions>,
    pub is_live: bool,
    pub is_cancelled: bool,
    pub reason: Option<String>,
    pub executed_amount: String,
    pub remaining_amount: String,
    pub original_amount: String,
    pub is_hidden: bool,
}

/// The mathematical value of an order response.
pub ghost struct OrderResponseV {
    pub order_id: OrderId,
    pub client_order_id: Option<Seq<char>>,
    pub symbol: Seq<char>,
    pub exchange: Seq<char>,
    pub price: Seq<char>,
    pub avg_execution_price: Seq<char>,
    pub side: OrderSide,
    pub order_type: Seq<char>,
    pub options: Seq<OrderOptions>,
    pub is_live: bool,
    pub is_cancelled: bool,
    pub reason: Option<Seq<char>>,
    pub executed_amount: Seq<char>,
    pub remaining_amount: Seq<char>,
    pub original_amount: Seq<char>,
    pub is_hidden: bool,
}

impl DeepView for OrderResponse {
    type V = OrderResponseV;

    open spec fn deep_view(&self) -> OrderResponseV {
        OrderResponseV {
            order_id: self.order_id,
            client_order_id: self.client_order_id.deep_view(),
            symbol: self.symbol@,
            exchange: self.exchange@,
            price: self.price@,
            avg_execution_price: self.avg_execution_price@,
            side: self.side,
            order_type: self.order_type@,
            options: self.options.deep_view(),
            is_live: self.is_live,
            is_cancelled: self.is_cancelled,
            reason: self.reason.deep_view(),
            executed_amount: self.executed_amount@,
            remaining_amount: self.remaining_amount@,
            original_amount: self.original_amount@,
            is_hidden: self.is_hidden,
        }
    }
}

/// The order response a JSON value denotes, field by field; `None` when any
/// required field is missing or mis-shaped.
pub open spec fn order_response_of(j: JsonVal) -> Option<OrderResponseV> {
    let order_id = jv_id_field(j, "order_id"@);
    let client_order_id = jv_opt_str_field(j, "client_order_id"@);
    let symbol = jv_str_field(j, "symbol"@);
    let exchange = jv_str_field(j, "exchange"@);
    let price = jv_str_field(j, "price"@);
    let avg_execution_price = jv_str_field(j, "avg_execution_price"@);
    let side = match jv_str_field(j, "side"@) {
        Some(s) => side_of_text(s),
        None => None,
    };
    let order_type = jv_str_field(j, "type"@);
    let options = match jv_get(j, "options"@) {
        Some(v) => options_of(v),
        None => None,
    };
    let is_live = jv_bool_field(j, "is_live"@);
    let is_cancelled = jv_bool_field(j, "is_cancelled"@);
    let reason = jv_opt_str_field(j, "reason"@);
    let executed_amount = jv_str_field(j, "executed_amount"@);
    let remaining_amount = jv_str_field(j, "remaining_amount"@);
    let original_amount = jv_str_field(j, "original_amount"@);
    let is_hidden = jv_bool_field(j, "is_hidden"@);
    if order_id is Some && client_order_id is Some && symbol is Some && exchange is Some && price
        is Some && avg_execution_price is Some && side is Some && order_type is Some && options
        is Some && is_live is Some && is_cancelled is Some && reason is Some && executed_amount
        is Some && remaining_amount is Some && original_amount is Some && is_hidden is Some {
        Some(
            OrderResponseV {
                order_id: OrderId(order_id->0),
                client_order_id: client_order_id->0,
                symbol: symbol->0,
                exchange: exchange->0,
                price: price->0,
                avg_execution_price: avg_execution_price->0,
                side: side->0,
                order_type: order_type->0,
                options: options->0,
                is_live: is_live->0,
                is_cancelled: is_cancelled->0,
                reason: reason->0,
                executed_amount: executed_amount->0,
                remaining_amount: remaining_amount->0,
                original_amount: original_amount->0,
                is_hidden: is_hidden->0,
            },
        )
    } else {
        None
    }
}

/// Reads an order response from a parsed body.
pub fn extract_order_response(j: &Json) -> (r: Option<OrderResponse>)
    ensures
        r.deep_view() == order_response_of(j.jv()),
{
    let order_id = match id_field(j, "order_id") {
        Some(v) => OrderId(v),
        None => {
            return None;
        },
    };
    let client_order_id = match opt_str_field(j, "client_order_id") {
        Some(v) => v,
        None => {
            return None;
        },
    };
    let symbol = match str_field(j, "symbol") {
        Some(v) => v,
        None => {
            return None;
        },
    };
    let exchange = match str_field(j, "exchange") {
        Some(v) => v,
        None => {
            return None;
        },
    };
    let price = match str_field(j, "price") {
        Some(v) => v,
        None => {
            return None;
        },
    };
    let avg_execution_price = match str_field(j, "avg_execution_price") {
        Some(v) => v,
        None => {
            return None;
        },
    };
    let side = match str_field(j, "side") {
        Some(s) => match order_side_lowercase(s.as_str()) {
            Some(v) => v,
            None => {
                return None;
            },
        },
        None => {
            return None;
        },
    };
    let order_type = match str_field(j, "type") {
        Some(v) => v,
        None => {
            return None;
        },
    };
    let options = match j.get("options") {
        Some(v) => match parse_options(v) {
            Some(o) => o,
            None => {
                return None;
            },
        },
        None => {
            return None;
        },
    };
    let is_live = match bool_field(j, "is_live") {
        Some(v) => v,
        None => {
            return None;
        },
    };
    let is_cancelled = match bool_field(j, "is_cancelled") {
        Some(v) => v,
        None => {
            return None;
        },
    };
    let reason = match opt_str_field(j, "reason") {
        Some(v) => v,
        None => {
            return None;
        },
    };
    let executed_amount = match str_field(j, "executed_amount") {
        Some(v) => v,
        None => {
            return None;
        },
    };
    let remaining_amount = match str_field(j, "remaining_amount") {
        Some(v) => v,
        None => {
            return None;
        },
    };
    let original_amount = match str_field(j, "original_amount") {
        Some(v) => v,
        None => {
            return None;
        },
    };
    let is_hidden = match bool_field(j, "is_hidden") {
        Some(v) => v,
        None => {
            return None;
        },
    };
    Some(
        OrderResponse {
            order_id,
            client_order_id,
            symbol,
            exchange,
            price,
            avg_execution_price,
            side,
            order_type,
            options,
            is_live,
            is_cancelled,
            reason,
            executed_amount,
            remaining_amount,
            original_amount,
            is_hidden,
        },
    )
}

} // verus!
