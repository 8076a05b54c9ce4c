//! The request envelope: a freshly generated, strictly increasing nonce, the
//! target path, and the request body flattened into one JSON object.  The
//! exact serialized text of this structure is what gets base64-encoded and
//! signed; any change in field order or formatting between signing and
//! transmission invalidates the signature.
use vstd::prelude::*;
use vstd::utf8::encode_utf8;
use crate::json::{
    Json, JsonVal, jv_fields, str_lit, json_ser, field_ser, obj_items_ser, obj_tail_ser,
    lemma_obj_tail_snoc, lemma_esc_str_plain, lemma_jv_fields_len, lemma_jv_fields_index,
    push_char, write_str_lit, bytes_eq,
};
use crate::num::{dec_chars, u64_to_dec};
use crate::sign::{sign, sign_spec, base64_of, base64_encode, recover_payload};

verus! {

/// Name of the header carrying the account's key.
pub const HEADER_APIKEY: &'static str = "X-APIKEY";

/// Name of the header carrying the base64 payload text.
pub const HEADER_PAYLOAD: &'static str = "X-PAYLOAD";

/// Name of the header carrying the payload's signature.
pub const HEADER_SIGNATURE: &'static str = "X-SIGNATURE";

/// Content type of every authenticated request; the real body travels only
/// inside the payload header.
pub const CONTENT_TYPE: &'static str = "text/plain";

/// Relies on chrono's `Utc::now` and `timestamp_millis`: the wall clock in
/// milliseconds since the epoch.  Nothing is assumed of the value.  On a
/// host whose clock is set before the epoch, `Utc::now` itself panics.
#[verifier::external_body]
fn now_millis() -> u64 {
    chrono::Utc::now().timestamp_millis() as u64
}

/// Highest clock reading a nonce is taken from directly: the signed 64-bit
/// range that the wall-clock source reports.  A reading beyond it (a clock
/// gone absurd) is ignored and the previous nonce is bumped instead.
pub const NONCE_CLOCK_CAP: u64 = 0x7fff_ffff_ffff_ffff;

/// Generates nonces that are strictly increasing however fast they are
/// drawn, taking the wall clock in milliseconds when it has moved past the
/// previous nonce.
pub struct NonceGen {
    last: u64,
}

impl NonceGen {
    /// The last nonce handed out (zero before the first).
    pub closed spec fn spec_last(&self) -> u64 {
        self.last
    }

    /// A fresh generator.
    pub fn new() -> (r: NonceGen)
        ensures
            r.spec_last() == 0,
    {
        NonceGen { last: 0 }
    }

    /// The next nonce: strictly larger than every nonce this generator has
    /// handed out before.
    pub fn next(&mut self) -> (r: u64)
        requires
            old(self).spec_last() < u64::MAX,
        ensures
            r == final(self).spec_last(),
            r > old(self).spec_last(),
            r <= NONCE_CLOCK_CAP || r == old(self).spec_last() + 1,
    {
        let now = now_millis();
        let candidate = if now > self.last && now <= NONCE_CLOCK_CAP {
            now
        } else {
            self.last + 1
        };
        self.last = candidate;
        candidate
    }

    /// Whether another nonce can be drawn.
    pub fn has_headroom(&self) -> (r: bool)
        ensures
            r == (self.spec_last() < u64::MAX),
    {
        self.last < u64::MAX
    }

    /// Law: nonces drawn in succession are strictly increasing, however
    /// rapidly they are drawn.
    #[verifier::loop_isolation(false)]
    pub fn fresh_nonces(&mut self, n: usize) -> (r: Vec<u64>)
        requires
            old(self).spec_last() <= NONCE_CLOCK_CAP,
            n <= u64::MAX - NONCE_CLOCK_CAP,
        ensures
            r@.len() == n,
            forall|i: int, j: int| 0 <= i < j < n ==> r@[i] < r@[j],
            final(self).spec_last() >= old(self).spec_last(),
    {
        let mut out: Vec<u64> = Vec::new();
        let mut k: usize = 0;
        while k < n
            invariant
                0 <= k <= n,
                out@.len() == k,
                self.spec_last() <= NONCE_CLOCK_CAP + k,
                self.spec_last() >= old(self).spec_last(),
                forall|i: int, j: int| 0 <= i < j < k ==> out@[i] < out@[j],
                forall|i: int| 0 <= i < k ==> out@[i] <= self.spec_last(),
            decreases n - k,
        {
            let v = self.next();
            out.push(v);
            k = k + 1;
        }
        out
    }
}

/// The canonical text of an envelope: one flat JSON object whose first two
/// fields are the nonce and the request path, followed by the body's fields.
pub open spec fn envelope_ser(nonce: nat, request: Seq<char>, body: Seq<(Seq<char>, JsonVal)>) -> Seq<char> {
    "{\"nonce\":"@ + dec_chars(nonce) + ",\"request\":"@ + str_lit(request) + obj_tail_ser(body)
        + "}"@
}

/// Law: the envelope's canonical text is exactly the canonical JSON
/// serialization of one flat object holding the nonce, the request path, and
/// the body's fields, in that order — nothing is nested.
pub proof fn lemma_envelope_is_canonical_json(
    nonce: nat,
    request: Seq<char>,
    body: Seq<(Seq<char>, JsonVal)>,
)
    ensures
        envelope_ser(nonce, request, body) == json_ser(
            JsonVal::Obj(
                seq![
                    ("nonce"@, JsonVal::Num(dec_chars(nonce))),
                    ("request"@, JsonVal::Str(request)),
                ] + body,
            ),
        ),
{
    reveal_strlit("{\"nonce\":");
    reveal_strlit(",\"request\":");
    reveal_strlit("}");
    reveal_strlit("nonce");
    reveal_strlit("request");
    assert(forall|i: int|
        0 <= i < "nonce"@.len() ==> #[trigger] "nonce"@[i] != '"' && "nonce"@[i] != '\\' && (
        "nonce"@[i] as u32) >= 32);
    lemma_esc_str_plain("nonce"@);
    assert(forall|i: int|
        0 <= i < "request"@.len() ==> #[trigger] "request"@[i] != '"' && "request"@[i] != '\\'
            && ("request"@[i] as u32) >= 32);
    lemma_esc_str_plain("request"@);
    let fs = seq![("nonce"@, JsonVal::Num(dec_chars(nonce))), ("request"@, JsonVal::Str(request))]
        + body;
    assert(fs[0] == ("nonce"@, JsonVal::Num(dec_chars(nonce))));
    assert(fs.drop_first() =~= seq![("request"@, JsonVal::Str(request))] + body);
    let rest = fs.drop_first();
    assert(rest[0] == ("request"@, JsonVal::Str(request)));
    assert(rest.drop_first() =~= body);
    assert(obj_items_ser(fs) == field_ser(fs[0]) + obj_tail_ser(rest));
    assert(obj_tail_ser(rest) == seq![','] + field_ser(rest[0]) + obj_tail_ser(body));
    assert(str_lit("nonce"@) =~= seq!['"'] + "nonce"@ + seq!['"']);
    assert(str_lit("request"@) =~= seq!['"'] + "request"@ + seq!['"']);
    assert(field_ser(fs[0]) =~= str_lit("nonce"@) + seq![':'] + dec_chars(nonce));
    assert(field_ser(rest[0]) =~= str_lit("request"@) + seq![':'] + str_lit(request));
    assert("{\"nonce\":"@ =~= seq!['{'] + str_lit("nonce"@) + seq![':']);
    assert(",\"request\":"@ =~= seq![','] + str_lit("request"@) + seq![':']);
    assert("}"@ =~= seq!['}']);
    assert(envelope_ser(nonce, request, body) =~= json_ser(JsonVal::Obj(fs)));
}

/// A payload deliverable to the exchange: the request body wrapped with the
/// fields every authenticated call carries.  Constructed fresh per request
/// and never reused, so nonces differ between requests.
pub struct Payload {
    pub nonce: u64,
    pub request: String,
    pub body: Vec<(String, Json)>,
}

impl Payload {
    /// The canonical serialized text of this envelope.
    pub open spec fn ser(&self) -> Seq<char> {
        envelope_ser(self.nonce as nat, self.request@, jv_fields(self.body@))
    }

    /// Wraps a request body for the given path, drawing a fresh nonce.
    pub fn wrap(gen: &mut NonceGen, uri: &str, body: Vec<(String, Json)>) -> (r: Payload)
        requires
            old(gen).spec_last() < u64::MAX,
        ensures
            r.nonce == final(gen).spec_last(),
            r.nonce > old(gen).spec_last(),
            r.request@ == uri@,
            r.body == body,
    {
        let nonce = gen.next();
        Payload { nonce, request: uri.to_owned(), body }
    }

    /// Wraps an empty body: the envelope still serializes to a stable object
    /// holding the nonce and the path.
    pub fn empty(gen: &mut NonceGen, uri: &str) -> (r: Payload)
        requires
            old(gen).spec_last() < u64::MAX,
        ensures
            r.nonce == final(gen).spec_last(),
            r.nonce > old(gen).spec_last(),
            r.request@ == uri@,
            r.body@.len() == 0,
    {
        Self::wrap(gen, uri, Vec::new())
    }

    /// Serializes this envelope to its canonical text.
    #[verifier::loop_isolation(false)]
    pub fn to_text(&self) -> (r: String)
        ensures
            r@ == self.ser(),
    {
        let ghost fs = jv_fields(self.body@);
        let mut out = String::new();
        out.append("{\"nonce\":");
        let nonce_text = u64_to_dec(self.nonce);
        out.append(nonce_text.as_str());
        out.append(",\"request\":");
        write_str_lit(self.request.as_str(), &mut out);
        let ghost head = "{\"nonce\":"@ + dec_chars(self.nonce as nat) + ",\"request\":"@
            + str_lit(self.request@);
        proof {
            lemma_jv_fields_len(self.body@);
            assert(fs.take(0) =~= Seq::<(Seq<char>, JsonVal)>::empty());
            assert(obj_tail_ser(fs.take(0)) =~= Seq::<char>::empty());
            assert(out@ =~= head + obj_tail_ser(fs.take(0)));
        }
        let n = self.body.len();
        let mut i: usize = 0;
        while i < n
            invariant
                0 <= i <= n,
                out@ == head + obj_tail_ser(fs.take(i as int)),
            decreases n - i,
        {
            proof {
                lemma_jv_fields_index(self.body@, i as int);
            }
            push_char(&mut out, ',');
            write_str_lit(self.body[i].0.as_str(), &mut out);
            push_char(&mut out, ':');
            self.body[i].1.write(&mut out);
            proof {
                assert(fs.take(i as int).push(fs[i as int]) =~= fs.take(i + 1 as int));
                lemma_obj_tail_snoc(fs.take(i as int), fs[i as int]);
                assert(out@ =~= head + obj_tail_ser(fs.take(i + 1 as int)));
            }
            i = i + 1;
        }
        out.append("}");
        proof {
            assert(fs.take(n as int) =~= fs);
            assert(out@ =~= self.ser());
        }
        out
    }
}

/// What an authenticated call carries: the key, the base64 payload text, and
/// its signature.  These become the key, payload and signature headers, on
/// REST calls and on the order-events upgrade request alike.
pub struct SignedRequest {
    pub api_key: String,
    pub payload: String,
    pub signature: String,
}

/// Packages an envelope for transport: serialize canonically, base64-encode
/// that text, and sign the base64 text with the account secret.
pub fn build_auth(api_key: &str, api_secret: &str, p: &Payload) -> (r: SignedRequest)
    ensures
        r.api_key@ == api_key@,
        r.payload@ == base64_of(encode_utf8(p.ser())),
        r.signature@ == sign_spec(api_secret@, r.payload@),
{
    let text = p.to_text();
    let payload = base64_encode(text.as_str().as_bytes());
    let signature = sign(api_secret, payload.as_str());
    SignedRequest { api_key: api_key.to_owned(), payload, signature }
}

/// Law: packaging is deterministic — the same logical envelope (same nonce,
/// path and body fields) under the same credentials reproduces the same
/// payload text and the same signature.
pub proof fn lemma_auth_deterministic(
    n1: nat,
    r1: Seq<char>,
    b1: Seq<(Seq<char>, JsonVal)>,
    n2: nat,
    r2: Seq<char>,
    b2: Seq<(Seq<char>, JsonVal)>,
    secret: Seq<char>,
)
    requires
        n1 == n2,
        r1 == r2,
        b1 == b2,
    ensures
        base64_of(encode_utf8(envelope_ser(n1, r1, b1))) == base64_of(
            encode_utf8(envelope_ser(n2, r2, b2)),
        ),
        sign_spec(secret, base64_of(encode_utf8(envelope_ser(n1, r1, b1)))) == sign_spec(
            secret,
            base64_of(encode_utf8(envelope_ser(n2, r2, b2))),
        ),
{
}

/// Law: the transport encoding round-trips — decoding the base64 payload
/// text of an envelope recovers exactly the canonical bytes that were
/// signed, so the exchange's side signs the same bytes this side did.
pub fn payload_round_trip(p: &Payload) -> (ok: bool)
    ensures
        ok,
{
    let text = p.to_text();
    let b64 = base64_encode(text.as_str().as_bytes());
    let back = recover_payload(b64.as_str());
    match back {
        Some(v) => {
            proof {
                assert(b64@ == base64_of(encode_utf8(text@)));
                assert(v@ == encode_utf8(text@));
            }
            bytes_eq(v.as_slice(), text.as_str().as_bytes())
        },
        None => {
            proof {
                assert(b64@ == base64_of(encode_utf8(text@)));
                assert(false);
            }
            false
        },
    }
}

} // verus!
