//! The unauthenticated REST client core: the read-only endpoints' paths and
//! the decoding of their bodies.  Quotes stay exact decimal text.
use vstd::prelude::*;
use crate::json::{Json, JsonVal, jv_seq, lemma_jv_seq_len, lemma_jv_seq_index};
use crate::extract::{jv_as_str, jv_str_field, str_field};
use crate::parse::{parse_json, utf8_text};
use crate::types::{GError, GErrorV, decode_bytes_spec, semantic_or_malformed};

verus! {

/// The unauthenticated client: only a base address.
pub struct Public {
    uri: String,
}

impl Public {
    /// The configured base address.
    pub closed spec fn uri_spec(&self) -> Seq<char> {
        self.uri@
    }

    /// A client for the given base address.
    pub fn new(uri: &str) -> (r: Public)
        ensures
            r.uri_spec() == uri@,
    {
        Public { uri: uri.to_owned() }
    }

    /// The base address, for the transport.
    pub fn uri(&self) -> (r: &str)
        ensures
            r@ == self.uri_spec(),
    {
        self.uri.as_str()
    }

    /// The path of the symbol-list endpoint.
    pub fn get_symbols(&self) -> (r: String)
        ensures
            r@ == "/v1/symbols"@,
    {
        "/v1/symbols".to_owned()
    }

    /// The path of the ticker endpoint for one product.
    pub fn get_ticker(&self, product: &str) -> (r: String)
        ensures
            r@ == "/v1/pubticker/"@ + product@,
    {
        let mut path = "/v1/pubticker/".to_owned();
        path.append(product);
        path
    }
}

/// Recent quotes for one product, as exact decimal text.
pub struct Ticker {
    pub ask: String,
    pub bid: String,
    pub last: String,
}

/// The mathematical value of a ticker.
pub ghost struct TickerV {
    pub ask: Seq<char>,
    pub bid: Seq<char>,
    pub last: Seq<char>,
}

impl DeepView for Ticker {
    type V = TickerV;

    open spec fn deep_view(&self) -> TickerV {
        TickerV { ask: self.ask@, bid: self.bid@, last: self.last@ }
    }
}

/// The ticker a JSON value denotes: ask, bid and last as quoted decimal
/// text.
pub open spec fn ticker_of(j: JsonVal) -> Option<TickerV> {
    match (jv_str_field(j, "ask"@), jv_str_field(j, "bid"@), jv_str_field(j, "last"@)) {
        (Some(ask), Some(bid), Some(last)) => Some(TickerV { ask, bid, last }),
        _ => None,
    }
}

/// Reads a ticker from a parsed body.
pub fn extract_ticker(j: &Json) -> (r: Option<Ticker>)
    ensures
        r.deep_view() == ticker_of(j.jv()),
{
    let ask = match str_field(j, "ask") {
        Some(v) => v,
        None => {
            return None;
        },
    };
    let bid = match str_field(j, "bid") {
        Some(v) => v,
        None => {
            return None;
        },
    };
    let last = match str_field(j, "last") {
        Some(v) => v,
        None => {
            return None;
        },
    };
    Some(Ticker { ask, bid, last })
}

/// The symbol names in an array, all or nothing.
pub open spec fn symbols_of_items(items: Seq<JsonVal>) -> Option<Seq<Seq<char>>>
    decreases items.len(),
{
    if items.len() == 0 {
        Some(Seq::empty())
    } else {
        match jv_as_str(items[0]) {
            Some(s) => match symbols_of_items(items.drop_first()) {
                Some(rest) => Some(seq![s] + rest),
                None => None,
            },
            None => None,
        }
    }
}

/// The symbol list a JSON value denotes: an array of strings.
pub open spec fn symbols_of(v: JsonVal) -> Option<Seq<Seq<char>>> {
    match v {
        JsonVal::Arr(items) => symbols_of_items(items),
        _ => None,
    }
}

/// Reads a symbol list from a parsed body.
#[verifier::loop_isolation(false)]
pub fn extract_symbols(j: &Json) -> (r: Option<Vec<String>>)
    ensures
        r.deep_view() == symbols_of(j.jv()),
{
    match j {
        Json::Arr(items) => {
            let ghost ivals = jv_seq(items@);
            proof {
                lemma_jv_seq_len(items@);
                assert(ivals.skip(0) =~= ivals);
            }
            let n = items.len();
            let mut out: Vec<String> = Vec::new();
            let mut i: usize = 0;
            while i < n
                invariant
                    0 <= i <= n,
                    out@.len() == i,
                    symbols_of_items(ivals) == match symbols_of_items(ivals.skip(i as int)) {
                        Some(rest) => Some(out.deep_view() + rest),
                        None => None::<Seq<Seq<char>>>,
                    },
                decreases n - i,
            {
                proof {
                    lemma_jv_seq_index(items@, i as int);
                    assert(ivals.skip(i as int)[0] == ivals[i as int]);
                    assert(ivals.skip(i as int).drop_first() =~= ivals.skip(i + 1 as int));
                }
                match items[i] {
                    Json::Str(ref s) => {
                        let ghost prev = out.deep_view();
                        let ghost sv = s@;
                        out.push(s.clone());
                        proof {
                            assert(out.deep_view() =~= prev.push(sv));
                            match symbols_of_items(ivals.skip(i + 1 as int)) {
                                Some(rest2) => {
                                    assert(prev + (seq![sv] + rest2) =~= out.deep_view() + rest2);
                                },
                                None => {},
                            }
                        }
                    },
                    _ => {
                        return None;
                    },
                }
                i = i + 1;
            }
            proof {
                assert(ivals.skip(n as int) =~= Seq::<JsonVal>::empty());
                assert(out.deep_view() + Seq::<Seq<char>>::empty() =~= out.deep_view());
            }
            Some(out)
        },
        _ => None,
    }
}

/// Decodes a symbol-list body through the three-tier fallback.
pub fn decode_symbols(body: &[u8]) -> (r: Result<Vec<String>, GError>)
    ensures
        match r {
            Ok(v) => decode_bytes_spec(body@, (|j: JsonVal| symbols_of(j))) == Ok::<
                Seq<Seq<char>>,
                GErrorV,
            >(v.deep_view()),
            Err(e) => decode_bytes_spec(body@, (|j: JsonVal| symbols_of(j))) == Err::<
                Seq<Seq<char>>,
                GErrorV,
            >(e.deep_view()),
        },
{
    let text = match utf8_text(body) {
        Some(t) => t,
        None => {
            return Err(GError::Http("response body is not text".to_owned()));
        },
    };
    proof {
        vstd::utf8::encode_utf8_valid_utf8(text@);
        vstd::utf8::encode_utf8_decode_utf8(text@);
    }
    match parse_json(text) {
        Ok(j) => match extract_symbols(&j) {
            Some(v) => Ok(v),
            None => Err(semantic_or_malformed(&j, text)),
        },
        Err(e) => Err(GError::SerdeDe { error: e, data: text.to_owned() }),
    }
}

/// Decodes a ticker body through the three-tier fallback.
pub fn decode_ticker(body: &[u8]) -> (r: Result<Ticker, GError>)
    ensures
        match r {
            Ok(v) => decode_bytes_spec(body@, (|j: JsonVal| ticker_of(j))) == Ok::<
                TickerV,
                GErrorV,
            >(v.deep_view()),
            Err(e) => decode_bytes_spec(body@, (|j: JsonVal| ticker_of(j))) == Err::<
                TickerV,
                GErrorV,
            >(e.deep_view()),
        },
{
    let text = match utf8_text(body) {
        Some(t) => t,
        None => {
            return Err(GError::Http("response body is not text".to_owned()));
        },
    };
    proof {
        vstd::utf8::encode_utf8_valid_utf8(text@);
        vstd::utf8::encode_utf8_decode_utf8(text@);
    }
    match parse_json(text) {
        Ok(j) => match extract_ticker(&j) {
            Some(v) => Ok(v),
            None => Err(semantic_or_malformed(&j, text)),
        },
        Err(e) => Err(GError::SerdeDe { error: e, data: text.to_owned() }),
    }
}

} // verus!
