//! The authenticated REST client core: each endpoint builds its envelope
//! with a fresh nonce, serializes it canonically, and signs it; each
//! response body decodes through the three-tier fallback.  Sending the
//! request over the network is the caller's transport's job.
use vstd::prelude::*;
use vstd::utf8::encode_utf8;
use crate::json::{Json, JsonVal, jv_fields, lemma_jv_fields_len, lemma_jv_fields_index};
use crate::num::{dec_chars, u64_to_dec};
use crate::sign::{sign_spec, base64_of};
use crate::envelope::{NonceGen, Payload, SignedRequest, build_auth, envelope_ser};
use crate::parse::{parse_json, utf8_text};
use crate::types::{
    GError, GErrorV, decode_bytes_spec, semantic_or_malformed,
};
use crate::structs::order::{
    Order, OrderId, OrderResponse, OrderResponseV, order_fields, order_response_of,
    extract_order_response,
};
use crate::structs::private::{
    AccountBalance, AccountBalanceV, balances_of, extract_balances, NotionalVolume,
    NotionalVolumeV, notional_volume_of, extract_notional_volume, AccountTrade, AccountTradeV,
    account_trades_of, extract_account_trades, CancelResponse, CancelResponseV,
    cancel_response_of, extract_cancel_response,
};

verus! {

/// How this client identifies itself.
pub const USER_AGENT: &'static str = "demo-gemini-client";

/// One authenticated call, ready for transport: the path it goes to and the
/// signed header data it carries.
pub struct ApiCall {
    pub path: String,
    pub auth: SignedRequest,
}

/// What a well-formed call for a path and body looks like under the given
/// credentials: the payload is the base64 of the envelope's canonical bytes,
/// and the signature signs that payload text.
pub open spec fn call_ok(
    c: ApiCall,
    api_key: Seq<char>,
    api_secret: Seq<char>,
    nonce: u64,
    path: Seq<char>,
    body: Seq<(Seq<char>, JsonVal)>,
) -> bool {
    &&& c.path@ == path
    &&& c.auth.api_key@ == api_key
    &&& c.auth.payload@ == base64_of(encode_utf8(envelope_ser(nonce as nat, path, body)))
    &&& c.auth.signature@ == sign_spec(api_secret, c.auth.payload@)
}

/// The authenticated client: credentials, the base address, and the nonce
/// source.  Each call draws a fresh, strictly larger nonce.
pub struct Private {
    uri: String,
    api_key: String,
    api_secret: String,
    nonces: NonceGen,
}

impl Private {
    /// The configured base address.
    pub closed spec fn uri_spec(&self) -> Seq<char> {
        self.uri@
    }

    /// The configured key.
    pub closed spec fn api_key_spec(&self) -> Seq<char> {
        self.api_key@
    }

    /// The configured secret.
    pub closed spec fn api_secret_spec(&self) -> Seq<char> {
        self.api_secret@
    }

    /// The last nonce drawn.
    pub closed spec fn nonce_last(&self) -> u64 {
        self.nonces.spec_last()
    }

    /// Whether credentials and address are unchanged between two states.
    pub open spec fn same_config(&self, other: &Private) -> bool {
        &&& self.uri_spec() == other.uri_spec()
        &&& self.api_key_spec() == other.api_key_spec()
        &&& self.api_secret_spec() == other.api_secret_spec()
    }

    /// A client for the given base address and credentials.
    pub fn new(uri: &str, api_key: &str, api_secret: &str) -> (r: Private)
        ensures
            r.uri_spec() == uri@,
            r.api_key_spec() == api_key@,
            r.api_secret_spec() == api_secret@,
            r.nonce_last() == 0,
    {
        Private {
            uri: uri.to_owned(),
            api_key: api_key.to_owned(),
            api_secret: api_secret.to_owned(),
            nonces: NonceGen::new(),
        }
    }

    /// The base address, for the transport.
    pub fn uri(&self) -> (r: &str)
        ensures
            r@ == self.uri_spec(),
    {
        self.uri.as_str()
    }

    /// Whether another call can draw a nonce.
    pub fn has_nonce_headroom(&self) -> (r: bool)
        ensures
            r == (self.nonce_last() < u64::MAX),
    {
        self.nonces.has_headroom()
    }

    /// Wraps a body for a path and signs it: one fresh envelope per call,
    /// never reused.
    pub fn request(&mut self, path: &str, body: Vec<(String, Json)>) -> (r: ApiCall)
        requires
            old(self).nonce_last() < u64::MAX,
        ensures
            call_ok(
                r,
                old(self).api_key_spec(),
                old(self).api_secret_spec(),
                final(self).nonce_last(),
                path@,
                jv_fields(body@),
            ),
            final(self).nonce_last() > old(self).nonce_last(),
            final(self).same_config(old(self)),
    {
        let p = Payload::wrap(&mut self.nonces, path, body);
        let auth = build_auth(self.api_key.as_str(), self.api_secret.as_str(), &p);
        ApiCall { path: path.to_owned(), auth }
    }

    /// The balances request: an empty-bodied envelope for its fixed path.
    pub fn balances(&mut self) -> (r: ApiCall)
        requires
            old(self).nonce_last() < u64::MAX,
        ensures
            call_ok(
                r,
                old(self).api_key_spec(),
                old(self).api_secret_spec(),
                final(self).nonce_last(),
                "/v1/balances"@,
                Seq::empty(),
            ),
            final(self).nonce_last() > old(self).nonce_last(),
            final(self).same_config(old(self)),
    {
        let r = self.request("/v1/balances", Vec::new());
        proof {
            assert(jv_fields(Seq::<(String, Json)>::empty()) =~= Seq::<(Seq<char>, JsonVal)>::empty());
        }
        r
    }

    /// The notional-volume request: an empty-bodied envelope.
    pub fn notional_volume(&mut self) -> (r: ApiCall)
        requires
            old(self).nonce_last() < u64::MAX,
        ensures
            call_ok(
                r,
                old(self).api_key_spec(),
                old(self).api_secret_spec(),
                final(self).nonce_last(),
                "/v1/notionalvolume"@,
                Seq::empty(),
            ),
            final(self).nonce_last() > old(self).nonce_last(),
            final(self).same_config(old(self)),
    {
        let r = self.request("/v1/notionalvolume", Vec::new());
        proof {
            assert(jv_fields(Seq::<(String, Json)>::empty()) =~= Seq::<(Seq<char>, JsonVal)>::empty());
        }
        r
    }

    /// The recent-trades request: the symbol travels in the envelope body.
    pub fn recent_trades(&mut self, symbol: &str) -> (r: ApiCall)
        requires
            old(self).nonce_last() < u64::MAX,
        ensures
            call_ok(
                r,
                old(self).api_key_spec(),
                old(self).api_secret_spec(),
                final(self).nonce_last(),
                "/v1/mytrades"@,
                seq![("symbol"@, JsonVal::Str(symbol@))],
            ),
            final(self).nonce_last() > old(self).nonce_last(),
            final(self).same_config(old(self)),
    {
        let mut body: Vec<(String, Json)> = Vec::new();
        body.push(("symbol".to_owned(), Json::Str(symbol.to_owned())));
        proof {
            lemma_jv_fields_len(body@);
            lemma_jv_fields_index(body@, 0);
            assert(jv_fields(body@) =~= seq![("symbol"@, JsonVal::Str(symbol@))]);
        }
        self.request("/v1/mytrades", body)
    }

    /// The new-order request: the order's fields travel in the envelope
    /// body, in wire order.
    pub fn new_order(&mut self, order: &Order) -> (r: ApiCall)
        requires
            old(self).nonce_last() < u64::MAX,
        ensures
            call_ok(
                r,
                old(self).api_key_spec(),
                old(self).api_secret_spec(),
                final(self).nonce_last(),
                "/v1/order/new"@,
                order_fields(order.deep_view()),
            ),
            final(self).nonce_last() > old(self).nonce_last(),
            final(self).same_config(old(self)),
    {
        let body = order.to_fields();
        self.request("/v1/order/new", body)
    }

    /// The cancel-order request: the identifier travels in the envelope body
    /// as a number.
    pub fn cancel_order(&mut self, order_id: OrderId) -> (r: ApiCall)
        requires
            old(self).nonce_last() < u64::MAX,
        ensures
            call_ok(
                r,
                old(self).api_key_spec(),
                old(self).api_secret_spec(),
                final(self).nonce_last(),
                "/v1/order/cancel"@,
                seq![("order_id"@, JsonVal::Num(dec_chars(order_id.0 as nat)))],
            ),
            final(self).nonce_last() > old(self).nonce_last(),
            final(self).same_config(old(self)),
    {
        let mut body: Vec<(String, Json)> = Vec::new();
        body.push(("order_id".to_owned(), Json::Num(u64_to_dec(order_id.0))));
        proof {
            lemma_jv_fields_len(body@);
            lemma_jv_fields_index(body@, 0);
            assert(jv_fields(body@) =~= seq![
                ("order_id"@, JsonVal::Num(dec_chars(order_id.0 as nat))),
            ]);
        }
        self.request("/v1/order/cancel", body)
    }

    /// The cancel-all request: an empty-bodied envelope.
    pub fn cancel_all_orders(&mut self) -> (r: ApiCall)
        requires
            old(self).nonce_last() < u64::MAX,
        ensures
            call_ok(
                r,
                old(self).api_key_spec(),
                old(self).api_secret_spec(),
                final(self).nonce_last(),
                "/v1/order/cancel/all"@,
                Seq::empty(),
            ),
            final(self).nonce_last() > old(self).nonce_last(),
            final(self).same_config(old(self)),
    {
        let r = self.request("/v1/order/cancel/all", Vec::new());
        proof {
            assert(jv_fields(Seq::<(String, Json)>::empty()) =~= Seq::<(Seq<char>, JsonVal)>::empty());
        }
        r
    }
}

/// Decodes a balances body: the typed list, or the exchange's structured
/// error, or a malformed-response error with the raw text retained.
pub fn decode_balances(body: &[u8]) -> (r: Result<Vec<AccountBalance>, GError>)
    ensures
        match r {
            Ok(v) => decode_bytes_spec(body@, (|j: JsonVal| balances_of(j))) == Ok::<
                Seq<AccountBalanceV>,
                GErrorV,
            >(v.deep_view()),
            Err(e) => decode_bytes_spec(body@, (|j: JsonVal| balances_of(j))) == Err::<
                Seq<AccountBalanceV>,
                GErrorV,
            >(e.deep_view()),
        },
{
    let text = match utf8_text(body) {
        Some(t) => t,
        None => {
            return Err(GError::Http("response body is not text".to_owned()));
        },
    };
    proof {
        vstd::utf8::encode_utf8_valid_utf8(text@);
        vstd::utf8::encode_utf8_decode_utf8(text@);
    }
    match parse_json(text) {
        Ok(j) => match extract_balances(&j) {
            Some(v) => Ok(v),
            None => Err(semantic_or_malformed(&j, text)),
        },
        Err(e) => Err(GError::SerdeDe { error: e, data: text.to_owned() }),
    }
}

/// Decodes a notional-volume body through the three-tier fallback.
pub fn decode_notional_volume(body: &[u8]) -> (r: Result<NotionalVolume, GError>)
    ensures
        match r {
            Ok(v) => decode_bytes_spec(body@, (|j: JsonVal| notional_volume_of(j))) == Ok::<
                NotionalVolumeV,
                GErrorV,
            >(v.deep_view()),
            Err(e) => decode_bytes_spec(body@, (|j: JsonVal| notional_volume_of(j))) == Err::<
                NotionalVolumeV,
                GErrorV,
            >(e.deep_view()),
        },
{
    let text = match utf8_text(body) {
        Some(t) => t,
        None => {
            return Err(GError::Http("response body is not text".to_owned()));
        },
    };
    proof {
        vstd::utf8::encode_utf8_valid_utf8(text@);
        vstd::utf8::encode_utf8_decode_utf8(text@);
    }
    match parse_json(text) {
        Ok(j) => match extract_notional_volume(&j) {
            Some(v) => Ok(v),
            None => Err(semantic_or_malformed(&j, text)),
        },
        Err(e) => Err(GError::SerdeDe { error: e, data: text.to_owned() }),
    }
}

/// Decodes a past-trades body through the three-tier fallback.
pub fn decode_recent_trades(body: &[u8]) -> (r: Result<Vec<AccountTrade>, GError>)
    ensures
        match r {
            Ok(v) => decode_bytes_spec(body@, (|j: JsonVal| account_trades_of(j))) == Ok::<
                Seq<AccountTradeV>,
                GErrorV,
            >(v.deep_view()),
            Err(e) => decode_bytes_spec(body@, (|j: JsonVal| account_trades_of(j))) == Err::<
                Seq<AccountTradeV>,
                GErrorV,
            >(e.deep_view()),
        },
{
    let text = match utf8_text(body) {
        Some(t) => t,
        None => {
            return Err(GError::Http("response body is not text".to_owned()));
        },
    };
    proof {
        vstd::utf8::encode_utf8_valid_utf8(text@);
        vstd::utf8::encode_utf8_decode_utf8(text@);
    }
    match parse_json(text) {
        Ok(j) => match extract_account_trades(&j) {
            Some(v) => Ok(v),
            None => Err(semantic_or_malformed(&j, text)),
        },
        Err(e) => Err(GError::SerdeDe { error: e, data: text.to_owned() }),
    }
}

/// Decodes an order-response body through the three-tier fallback.
pub fn decode_order_response(body: &[u8]) -> (r: Result<OrderResponse, GError>)
    ensures
        match r {
            Ok(v) => decode_bytes_spec(body@, (|j: JsonVal| order_response_of(j))) == Ok::<
                OrderResponseV,
                GErrorV,
            >(v.deep_view()),
            Err(e) => decode_bytes_spec(body@, (|j: JsonVal| order_response_of(j))) == Err::<
                OrderResponseV,
                GErrorV,
            >(e.deep_view()),
        },
{
    let text = match utf8_text(body) {
        Some(t) => t,
        None => {
            return Err(GError::Http("response body is not text".to_owned()));
        },
    };
    proof {
        vstd::utf8::encode_utf8_valid_utf8(text@);
        vstd::utf8::encode_utf8_decode_utf8(text@);
    }
    match parse_json(text) {
        Ok(j) => match extract_order_response(&j) {
            Some(v) => Ok(v),
            None => Err(semantic_or_malformed(&j, text)),
        },
        Err(e) => Err(GError::SerdeDe { error: e, data: text.to_owned() }),
    }
}

/// Decodes a cancel-all body through the three-tier fallback.
pub fn decode_cancel_response(body: &[u8]) -> (r: Result<CancelResponse, GError>)
    ensures
        match r {
            Ok(v) => decode_bytes_spec(body@, (|j: JsonVal| cancel_response_of(j))) == Ok::<
                CancelResponseV,
                GErrorV,
            >(v.deep_view()),
            Err(e) => decode_bytes_spec(body@, (|j: JsonVal| cancel_response_of(j))) == Err::<
                CancelResponseV,
                GErrorV,
            >(e.deep_view()),
        },
{
    let text = match utf8_text(body) {
        Some(t) => t,
        None => {
            return Err(GError::Http("response body is not text".to_owned()));
        },
    };
    proof {
        vstd::utf8::encode_utf8_valid_utf8(text@);
        vstd::utf8::encode_utf8_decode_utf8(text@);
    }
    match parse_json(text) {
        Ok(j) => match extract_cancel_response(&j) {
            Some(v) => Ok(v),
            None => Err(semantic_or_malformed(&j, text)),
        },
        Err(e) => Err(GError::SerdeDe { error: e, data: text.to_owned() }),
    }
}

} // verus!
