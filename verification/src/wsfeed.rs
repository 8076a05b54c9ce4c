//! The feed sessions: a two-phase open with an explicit state machine, the
//! subscribe control message of the market-data feed, the signed upgrade
//! data of the order-events feed, and in-order classification of frames.
use vstd::prelude::*;
use vstd::utf8::encode_utf8;
use crate::json::{
    Json, JsonVal, json_ser, jv_seq, jv_fields, lemma_jv_seq_len, lemma_jv_seq_index,
    lemma_jv_fields_len, lemma_jv_fields_index,
};
use crate::envelope::{NonceGen, Payload, SignedRequest, build_auth, envelope_ser};
use crate::sign::{sign_spec, base64_of};
use crate::parse::json_of;
use crate::structs::wsfeed::{
    MarketDataMessage, OrderMessage, classify_md_of, classify_order_of, convert_md_msg,
    convert_order_msg,
};

verus! {

/// Path of the anonymous market-data feed.
pub const MARKETDATA_PATH: &'static str = "/v2/marketdata";

/// Path of the authenticated order-events feed.
pub const ORDER_EVENTS_PATH: &'static str = "/v1/order/events";

/// The streaming-feed entry points.
pub struct WSFeed;

/// What to subscribe to on the market-data feed.
#[derive(Clone, Copy, Debug, PartialEq, Eq, Structural)]
pub enum SubscriptionType {
    L2,
}

impl DeepView for SubscriptionType {
    type V = SubscriptionType;

    open spec fn deep_view(&self) -> SubscriptionType {
        *self
    }
}

/// The snake_case wire text of a subscription type.
pub open spec fn subscription_type_text(t: SubscriptionType) -> Seq<char> {
    match t {
        SubscriptionType::L2 => "l2"@,
    }
}

impl SubscriptionType {
    /// The snake_case wire text of this subscription type.
    pub fn text(&self) -> (r: &'static str)
        ensures
            r@ == subscription_type_text(*self),
    {
        match self {
            SubscriptionType::L2 => "l2",
        }
    }
}

/// One subscription of the market-data feed: a type and its symbols.
pub struct Subscription {
    pub name: SubscriptionType,
    pub symbols: Vec<String>,
}

/// The mathematical value of a subscription.
pub ghost struct SubscriptionV {
    pub name: SubscriptionType,
    pub symbols: Seq<Seq<char>>,
}

impl DeepView for Subscription {
    type V = SubscriptionV;

    open spec fn deep_view(&self) -> SubscriptionV {
        SubscriptionV { name: self.name, symbols: self.symbols.deep_view() }
    }
}

/// The JSON value of one subscription entry: its name and its symbols.
pub open spec fn subscription_val(s: SubscriptionV) -> JsonVal {
    JsonVal::Obj(
        seq![
            ("name"@, JsonVal::Str(subscription_type_text(s.name))),
            ("symbols"@, JsonVal::Arr(Seq::new(s.symbols.len(), |i: int| JsonVal::Str(s.symbols[i])))),
        ],
    )
}

/// The JSON value of the subscribe control message: its fixed tag and the
/// subscription entries in the order given.
pub open spec fn subscribe_msg_val(subs: Seq<SubscriptionV>) -> JsonVal {
    JsonVal::Obj(
        seq![
            ("type"@, JsonVal::Str("subscribe"@)),
            ("subscriptions"@, JsonVal::Arr(Seq::new(subs.len(), |i: int| subscription_val(subs[i])))),
        ],
    )
}

/// Builds the JSON tree of one subscription entry.
#[verifier::loop_isolation(false)]
fn subscription_json(s: &Subscription) -> (r: Json)
    ensures
        r.jv() == subscription_val(s.deep_view()),
{
    let mut symbols: Vec<Json> = Vec::new();
    let n = s.symbols.len();
    let mut i: usize = 0;
    while i < n
        invariant
            0 <= i <= n,
            symbols@.len() == i,
            forall|k: int|
                0 <= k < i ==> symbols@[k].jv() == JsonVal::Str(#[trigger] s.symbols@[k]@),
        decreases n - i,
    {
        symbols.push(Json::Str(s.symbols[i].clone()));
        i = i + 1;
    }
    let mut fields: Vec<(String, Json)> = Vec::new();
    fields.push(("name".to_owned(), Json::Str(s.name.text().to_owned())));
    fields.push(("symbols".to_owned(), Json::Arr(symbols)));
    let r = Json::Obj(fields);
    proof {
        let sv = s.deep_view();
        lemma_jv_seq_len(symbols@);
        assert forall|k: int| 0 <= k < n implies jv_seq(symbols@)[k] == JsonVal::Str(
            sv.symbols[k],
        ) by {
            lemma_jv_seq_index(symbols@, k);
        }
        assert(jv_seq(symbols@) =~= Seq::new(sv.symbols.len(), |i: int| JsonVal::Str(sv.symbols[i])));
        lemma_jv_fields_len(fields@);
        assert forall|k: int| 0 <= k < 2 implies jv_fields(fields@)[k] == subscription_val(
            sv,
        )->Obj_0[k] by {
            lemma_jv_fields_index(fields@, k);
        }
        assert(jv_fields(fields@) =~= subscription_val(sv)->Obj_0);
    }
    r
}

impl WSFeed {
    /// The one control message the market-data session sends right after the
    /// transport connects, before any inbound frame is delivered.
    #[verifier::loop_isolation(false)]
    pub fn subscribe_message(subscriptions: &Vec<Subscription>) -> (r: String)
        ensures
            r@ == json_ser(subscribe_msg_val(subscriptions.deep_view())),
    {
        let ghost subsv = subscriptions.deep_view();
        let mut entries: Vec<Json> = Vec::new();
        let n = subscriptions.len();
        let mut i: usize = 0;
        while i < n
            invariant
                0 <= i <= n,
                entries@.len() == i,
                forall|k: int|
                    0 <= k < i ==> entries@[k].jv() == subscription_val(
                        #[trigger] subscriptions@[k].deep_view(),
                    ),
            decreases n - i,
        {
            entries.push(subscription_json(&subscriptions[i]));
            i = i + 1;
        }
        let mut fields: Vec<(String, Json)> = Vec::new();
        fields.push(("type".to_owned(), Json::Str("subscribe".to_owned())));
        fields.push(("subscriptions".to_owned(), Json::Arr(entries)));
        let msg = Json::Obj(fields);
        proof {
            lemma_jv_seq_len(entries@);
            assert forall|k: int| 0 <= k < n implies jv_seq(entries@)[k] == subscription_val(
                subsv[k],
            ) by {
                lemma_jv_seq_index(entries@, k);
            }
            assert(jv_seq(entries@) =~= Seq::new(subsv.len(), |i: int| subscription_val(subsv[i])));
            lemma_jv_fields_len(fields@);
            assert forall|k: int| 0 <= k < 2 implies jv_fields(fields@)[k] == subscribe_msg_val(
                subsv,
            )->Obj_0[k] by {
                lemma_jv_fields_index(fields@, k);
            }
            assert(jv_fields(fields@) =~= subscribe_msg_val(subsv)->Obj_0);
        }
        msg.to_text()
    }

    /// The authenticated upgrade data of the order-events feed: an envelope
    /// for the feed's fixed path with an empty body, base64-encoded and
    /// signed before the transport handshake.
    pub fn order_events_auth(gen: &mut NonceGen, api_key: &str, api_secret: &str) -> (r:
        SignedRequest)
        requires
            old(gen).spec_last() < u64::MAX,
        ensures
            final(gen).spec_last() > old(gen).spec_last(),
            r.api_key@ == api_key@,
            r.payload@ == base64_of(
                encode_utf8(
                    envelope_ser(
                        final(gen).spec_last() as nat,
                        "/v1/order/events"@,
                        Seq::empty(),
                    ),
                ),
            ),
            r.signature@ == sign_spec(api_secret@, r.payload@),
    {
        let p = Payload::empty(gen, ORDER_EVENTS_PATH);
        proof {
            assert(crate::json::jv_fields(p.body@) =~= Seq::<(Seq<char>, JsonVal)>::empty());
        }
        build_auth(api_key, api_secret, &p)
    }
}

/// Where a feed session stands.  Failure before streaming is terminal for
/// the attempt; the stream's natural end is the graceful close.
#[derive(Clone, Copy, Debug, PartialEq, Eq, Structural)]
pub enum SessionState {
    Disconnected,
    Connecting,
    Handshaking,
    Streaming,
    Closed,
    Failed,
}

/// Which feed a session is for.
#[derive(Clone, Copy, Debug, PartialEq, Eq, Structural)]
pub enum FeedKind {
    MarketData,
    OrderEvents,
}

/// A feed session's lifecycle, made explicit so callers (and tests) can pin
/// the ordering: no frame is delivered before the handshake has completed.
pub struct FeedSession {
    pub kind: FeedKind,
    pub state: SessionState,
}

impl FeedSession {
    /// A session that has not touched the transport yet.
    pub fn new(kind: FeedKind) -> (r: FeedSession)
        ensures
            r.kind == kind,
            r.state == SessionState::Disconnected,
    {
        FeedSession { kind, state: SessionState::Disconnected }
    }

    /// The transport connection attempt begins.
    pub fn start_connect(&mut self)
        requires
            old(self).state == SessionState::Disconnected,
        ensures
            final(self).state == SessionState::Connecting,
            final(self).kind == old(self).kind,
    {
        self.state = SessionState::Connecting;
    }

    /// The transport is up; the handshake phase begins.
    pub fn transport_connected(&mut self)
        requires
            old(self).state == SessionState::Connecting,
        ensures
            final(self).state == SessionState::Handshaking,
            final(self).kind == old(self).kind,
    {
        self.state = SessionState::Handshaking;
    }

    /// Whether this session's handshake sends a subscribe message after the
    /// transport connects.  The market-data feed does; the order-events feed
    /// authenticated in the upgrade request and sends nothing.
    pub fn needs_subscribe(&self) -> (r: bool)
        ensures
            r == (self.kind == FeedKind::MarketData),
    {
        match self.kind {
            FeedKind::MarketData => true,
            FeedKind::OrderEvents => false,
        }
    }

    /// The handshake send completed; only now may frames be delivered.
    pub fn handshake_done(&mut self)
        requires
            old(self).state == SessionState::Handshaking,
        ensures
            final(self).state == SessionState::Streaming,
            final(self).kind == old(self).kind,
    {
        self.state = SessionState::Streaming;
    }

    /// Establishing the transport failed: terminal, the stream never starts.
    pub fn transport_failed(&mut self)
        requires
            old(self).state == SessionState::Connecting || old(self).state
                == SessionState::Handshaking,
        ensures
            final(self).state == SessionState::Failed,
            final(self).kind == old(self).kind,
    {
        self.state = SessionState::Failed;
    }

    /// Sending the handshake failed: terminal, the stream never starts.
    pub fn handshake_failed(&mut self)
        requires
            old(self).state == SessionState::Handshaking,
        ensures
            final(self).state == SessionState::Failed,
            final(self).kind == old(self).kind,
    {
        self.state = SessionState::Failed;
    }

    /// The transport stream ended: the graceful terminal state.
    pub fn stream_ended(&mut self)
        requires
            old(self).state == SessionState::Streaming,
        ensures
            final(self).state == SessionState::Closed,
            final(self).kind == old(self).kind,
    {
        self.state = SessionState::Closed;
    }

    /// Whether inbound frames may be handed to the caller: only while
    /// streaming, so nothing is observed before the handshake boundary.
    pub fn can_deliver(&self) -> (r: bool)
        ensures
            r == (self.state == SessionState::Streaming),
    {
        match self.state {
            SessionState::Streaming => true,
            _ => false,
        }
    }
}

/// Law: order-events frames are classified one for one, in arrival order —
/// the message at each position is the classification of the frame at that
/// position, so exchange-side event ordering is preserved.
#[verifier::loop_isolation(false)]
pub fn classify_order_frames(frames: &Vec<String>) -> (r: Vec<OrderMessage>)
    ensures
        r@.len() == frames@.len(),
        forall|i: int|
            0 <= i < frames@.len() ==> r@[i].deep_view() == classify_order_of(
                json_of(#[trigger] frames@[i]@),
                frames@[i]@,
            ),
{
    let mut out: Vec<OrderMessage> = Vec::new();
    let n = frames.len();
    let mut i: usize = 0;
    while i < n
        invariant
            0 <= i <= n,
            out@.len() == i,
            forall|k: int|
                0 <= k < i ==> out@[k].deep_view() == classify_order_of(
                    json_of(#[trigger] frames@[k]@),
                    frames@[k]@,
                ),
        decreases n - i,
    {
        out.push(convert_order_msg(frames[i].as_str()));
        i = i + 1;
    }
    out
}

/// Law: market-data frames are classified one for one, in arrival order.
#[verifier::loop_isolation(false)]
pub fn classify_md_frames(frames: &Vec<String>) -> (r: Vec<MarketDataMessage>)
    ensures
        r@.len() == frames@.len(),
        forall|i: int|
            0 <= i < frames@.len() ==> r@[i].deep_view() == classify_md_of(
                json_of(#[trigger] frames@[i]@),
                frames@[i]@,
            ),
{
    let mut out: Vec<MarketDataMessage> = Vec::new();
    let n = frames.len();
    let mut i: usize = 0;
    while i < n
        invariant
            0 <= i <= n,
            out@.len() == i,
            forall|k: int|
                0 <= k < i ==> out@[k].deep_view() == classify_md_of(
                    json_of(#[trigger] frames@[k]@),
                    frames@[k]@,
                ),
        decreases n - i,
    {
        out.push(convert_md_msg(frames[i].as_str()));
        i = i + 1;
    }
    out
}

} // verus!
