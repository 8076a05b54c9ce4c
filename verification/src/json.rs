//! A JSON value model with exact decimal text for numbers, and a canonical
//! serializer whose output is pinned character for character by the spec
//! functions here.  The envelope that gets signed is serialized through this
//! module, so what is signed is exactly what these functions say.
use vstd::prelude::*;
use vstd::string::StringSliceAdditionalSpecFns;

verus! {

/// A JSON value.  Numbers are kept as their exact decimal text so monetary
/// amounts never pass through floating point.
pub enum Json {
    Null,
    Bool(bool),
    Num(String),
    Str(String),
    Arr(Vec<Json>),
    Obj(Vec<(String, Json)>),
}

/// The mathematical value of a [`Json`] tree: text as character sequences,
/// collections as sequences.
pub ghost enum JsonVal {
    Null,
    Bool(bool),
    Num(Seq<char>),
    Str(Seq<char>),
    Arr(Seq<JsonVal>),
    Obj(Seq<(Seq<char>, JsonVal)>),
}

impl Json {
    /// The mathematical value of this JSON tree.
    pub open spec fn jv(&self) -> JsonVal
        decreases self,
    {
        match self {
            Json::Null => JsonVal::Null,
            Json::Bool(b) => JsonVal::Bool(*b),
            Json::Num(s) => JsonVal::Num(s@),
            Json::Str(s) => JsonVal::Str(s@),
            Json::Arr(items) => JsonVal::Arr(jv_seq(items@)),
            Json::Obj(fields) => JsonVal::Obj(jv_fields(fields@)),
        }
    }
}

/// The mathematical values of a sequence of JSON trees.
pub open spec fn jv_seq(items: Seq<Json>) -> Seq<JsonVal>
    decreases items,
{
    if items.len() == 0 {
        Seq::empty()
    } else {
        seq![items[0].jv()] + jv_seq(items.drop_first())
    }
}

/// The mathematical values of a sequence of key-value pairs.
pub open spec fn jv_fields(fields: Seq<(String, Json)>) -> Seq<(Seq<char>, JsonVal)>
    decreases fields,
{
    if fields.len() == 0 {
        Seq::empty()
    } else {
        seq![(fields[0].0@, fields[0].1.jv())] + jv_fields(fields.drop_first())
    }
}

pub broadcast proof fn lemma_jv_seq_len(items: Seq<Json>)
    ensures
        (#[trigger] jv_seq(items)).len() == items.len(),
    decreases items,
{
    if items.len() > 0 {
        lemma_jv_seq_len(items.drop_first());
    }
}

pub broadcast proof fn lemma_jv_seq_index(items: Seq<Json>, i: int)
    requires
        0 <= i < items.len(),
    ensures
        #[trigger] jv_seq(items)[i] == items[i].jv(),
    decreases items,
{
    lemma_jv_seq_len(items);
    if i > 0 {
        lemma_jv_seq_index(items.drop_first(), i - 1);
    }
}

pub broadcast proof fn lemma_jv_fields_len(fields: Seq<(String, Json)>)
    ensures
        (#[trigger] jv_fields(fields)).len() == fields.len(),
    decreases fields,
{
    if fields.len() > 0 {
        lemma_jv_fields_len(fields.drop_first());
    }
}

pub broadcast proof fn lemma_jv_fields_index(fields: Seq<(String, Json)>, i: int)
    requires
        0 <= i < fields.len(),
    ensures
        #[trigger] jv_fields(fields)[i] == (fields[i].0@, fields[i].1.jv()),
    decreases fields,
{
    lemma_jv_fields_len(fields);
    if i > 0 {
        lemma_jv_fields_index(fields.drop_first(), i - 1);
    }
}

impl DeepView for Json {
    type V = JsonVal;

    open spec fn deep_view(&self) -> JsonVal {
        self.jv()
    }
}

/// Lowercase hexadecimal digit for `d < 16`.
pub open spec fn hex_digit(d: nat) -> char {
    if d < 10 {
        ((d + 48) as u8) as char
    } else {
        ((d + 87) as u8) as char
    }
}

/// How one character of a JSON string is written: the two-character escapes
/// `\" \\ \b \f \n \r \t`, `\u00xx` for the remaining control characters,
/// and every other character unchanged.
pub open spec fn esc_char(c: char) -> Seq<char> {
    if c == '"' {
        seq!['\\', '"']
    } else if c == '\\' {
        seq!['\\', '\\']
    } else if c == '\u{8}' {
        seq!['\\', 'b']
    } else if c == '\u{c}' {
        seq!['\\', 'f']
    } else if c == '\n' {
        seq!['\\', 'n']
    } else if c == '\r' {
        seq!['\\', 'r']
    } else if c == '\t' {
        seq!['\\', 't']
    } else if (c as u32) < 32 {
        seq!['\\', 'u', '0', '0', hex_digit((c as u32 / 16) as nat), hex_digit(
            (c as u32 % 16) as nat,
        )]
    } else {
        seq![c]
    }
}

/// The escaped body of a JSON string.
pub open spec fn esc_str(s: Seq<char>) -> Seq<char>
    decreases s.len(),
{
    if s.len() == 0 {
        Seq::empty()
    } else {
        esc_char(s[0]) + esc_str(s.drop_first())
    }
}

/// A JSON string literal: quotes around the escaped body.
pub open spec fn str_lit(s: Seq<char>) -> Seq<char> {
    seq!['"'] + esc_str(s) + seq!['"']
}

/// Canonical serialization of a JSON value: no whitespace, object fields in
/// the order given.
pub open spec fn json_ser(v: JsonVal) -> Seq<char>
    decreases v,
{
    match v {
        JsonVal::Null => seq!['n', 'u', 'l', 'l'],
        JsonVal::Bool(b) => if b {
            seq!['t', 'r', 'u', 'e']
        } else {
            seq!['f', 'a', 'l', 's', 'e']
        },
        JsonVal::Num(s) => s,
        JsonVal::Str(s) => str_lit(s),
        JsonVal::Arr(items) => seq!['['] + arr_items_ser(items) + seq![']'],
        JsonVal::Obj(fields) => seq!['{'] + obj_items_ser(fields) + seq!['}'],
    }
}

/// The elements of an array, comma-separated.
pub open spec fn arr_items_ser(items: Seq<JsonVal>) -> Seq<char>
    decreases items,
{
    if items.len() == 0 {
        Seq::empty()
    } else {
        json_ser(items[0]) + arr_tail_ser(items.drop_first())
    }
}

/// The elements of an array after the first: each preceded by a comma.
pub open spec fn arr_tail_ser(items: Seq<JsonVal>) -> Seq<char>
    decreases items,
{
    if items.len() == 0 {
        Seq::empty()
    } else {
        seq![','] + json_ser(items[0]) + arr_tail_ser(items.drop_first())
    }
}

/// One object field: quoted key, colon, value.
pub open spec fn field_ser(f: (Seq<char>, JsonVal)) -> Seq<char>
    decreases f,
{
    str_lit(f.0) + seq![':'] + json_ser(f.1)
}

/// The fields of an object, comma-separated.
pub open spec fn obj_items_ser(fields: Seq<(Seq<char>, JsonVal)>) -> Seq<char>
    decreases fields,
{
    if fields.len() == 0 {
        Seq::empty()
    } else {
        field_ser(fields[0]) + obj_tail_ser(fields.drop_first())
    }
}

/// The fields of an object after the first: each preceded by a comma.
pub open spec fn obj_tail_ser(fields: Seq<(Seq<char>, JsonVal)>) -> Seq<char>
    decreases fields,
{
    if fields.len() == 0 {
        Seq::empty()
    } else {
        seq![','] + field_ser(fields[0]) + obj_tail_ser(fields.drop_first())
    }
}

/// First-match lookup of a key among an object's fields.
pub open spec fn obj_get(fields: Seq<(Seq<char>, JsonVal)>, key: Seq<char>) -> Option<JsonVal>
    decreases fields.len(),
{
    if fields.len() == 0 {
        None
    } else if fields[0].0 == key {
        Some(fields[0].1)
    } else {
        obj_get(fields.drop_first(), key)
    }
}

/// Lookup of a key in a JSON value: `None` unless the value is an object
/// with that key.
pub open spec fn jv_get(v: JsonVal, key: Seq<char>) -> Option<JsonVal> {
    match v {
        JsonVal::Obj(fields) => obj_get(fields, key),
        _ => None,
    }
}

/// Relies on `String::push`: appends one character.
#[verifier::external_body]
pub(crate) fn push_char(s: &mut String, c: char)
    ensures
        final(s)@ == old(s)@.push(c),
{
    s.push(c);
}

pub proof fn lemma_esc_str_snoc(s: Seq<char>, c: char)
    ensures
        esc_str(s.push(c)) == esc_str(s) + esc_char(c),
    decreases s.len(),
{
    assert(s.push(c)[0] == if s.len() == 0 {
        c
    } else {
        s[0]
    });
    if s.len() == 0 {
        assert(s.push(c).drop_first() =~= Seq::<char>::empty());
        assert(esc_str(Seq::<char>::empty()) =~= Seq::<char>::empty());
        assert(esc_str(s.push(c)) =~= esc_char(c));
        assert(esc_str(s) + esc_char(c) =~= esc_char(c));
    } else {
        lemma_esc_str_snoc(s.drop_first(), c);
        assert(s.push(c).drop_first() =~= s.drop_first().push(c));
        assert(esc_str(s.push(c)) =~= esc_str(s) + esc_char(c));
    }
}

pub proof fn lemma_arr_tail_snoc(items: Seq<JsonVal>, x: JsonVal)
    ensures
        arr_tail_ser(items.push(x)) == arr_tail_ser(items) + seq![','] + json_ser(x),
    decreases items.len(),
{
    assert(items.push(x)[0] == if items.len() == 0 {
        x
    } else {
        items[0]
    });
    if items.len() == 0 {
        assert(items.push(x).drop_first() =~= Seq::<JsonVal>::empty());
        assert(arr_tail_ser(Seq::<JsonVal>::empty()) =~= Seq::<char>::empty());
        assert(arr_tail_ser(items.push(x)) =~= arr_tail_ser(items) + seq![','] + json_ser(x));
    } else {
        lemma_arr_tail_snoc(items.drop_first(), x);
        assert(items.push(x).drop_first() =~= items.drop_first().push(x));
        assert(arr_tail_ser(items.push(x)) =~= seq![','] + json_ser(items[0]) + arr_tail_ser(
            items.drop_first().push(x),
        ));
        assert(arr_tail_ser(items.push(x)) =~= arr_tail_ser(items) + seq![','] + json_ser(x));
    }
}

pub proof fn lemma_obj_tail_snoc(fields: Seq<(Seq<char>, JsonVal)>, f: (Seq<char>, JsonVal))
    ensures
        obj_tail_ser(fields.push(f)) == obj_tail_ser(fields) + seq![','] + field_ser(f),
    decreases fields.len(),
{
    assert(fields.push(f)[0] == if fields.len() == 0 {
        f
    } else {
        fields[0]
    });
    if fields.len() == 0 {
        assert(fields.push(f).drop_first() =~= Seq::<(Seq<char>, JsonVal)>::empty());
        assert(obj_tail_ser(Seq::<(Seq<char>, JsonVal)>::empty()) =~= Seq::<char>::empty());
        assert(obj_tail_ser(fields.push(f)) =~= obj_tail_ser(fields) + seq![','] + field_ser(f));
    } else {
        lemma_obj_tail_snoc(fields.drop_first(), f);
        assert(fields.push(f).drop_first() =~= fields.drop_first().push(f));
        assert(obj_tail_ser(fields.push(f)) =~= seq![','] + field_ser(fields[0]) + obj_tail_ser(
            fields.drop_first().push(f),
        ));
        assert(obj_tail_ser(fields.push(f)) =~= obj_tail_ser(fields) + seq![','] + field_ser(f));
    }
}

/// Text in which no character needs escaping is written unchanged.
pub proof fn lemma_esc_str_plain(s: Seq<char>)
    requires
        forall|i: int|
            0 <= i < s.len() ==> #[trigger] s[i] != '"' && s[i] != '\\' && (s[i] as u32) >= 32,
    ensures
        esc_str(s) == s,
    decreases s.len(),
{
    if s.len() == 0 {
        assert(esc_str(s) =~= s);
    } else {
        assert(s[0] != '"' && s[0] != '\\' && (s[0] as u32) >= 32);
        assert(esc_char(s[0]) == seq![s[0]]);
        lemma_esc_str_plain(s.drop_first());
        assert(esc_str(s) =~= seq![s[0]] + s.drop_first());
        assert(seq![s[0]] + s.drop_first() =~= s);
    }
}

/// Writes the escaped form of one string character.
fn write_esc_char(c: char, out: &mut String)
    ensures
        final(out)@ == old(out)@ + esc_char(c),
{
    if c == '"' {
        push_char(out, '\\');
        push_char(out, '"');
    } else if c == '\\' {
        push_char(out, '\\');
        push_char(out, '\\');
    } else if c == '\u{8}' {
        push_char(out, '\\');
        push_char(out, 'b');
    } else if c == '\u{c}' {
        push_char(out, '\\');
        push_char(out, 'f');
    } else if c == '\n' {
        push_char(out, '\\');
        push_char(out, 'n');
    } else if c == '\r' {
        push_char(out, '\\');
        push_char(out, 'r');
    } else if c == '\t' {
        push_char(out, '\\');
        push_char(out, 't');
    } else if (c as u32) < 32 {
        let u = c as u32;
        let hi = (u / 16) as u8;
        let lo = (u % 16) as u8;
        let hic: char = if hi < 10 {
            (hi + 48) as char
        } else {
            (hi + 87) as char
        };
        let loc: char = if lo < 10 {
            (lo + 48) as char
        } else {
            (lo + 87) as char
        };
        push_char(out, '\\');
        push_char(out, 'u');
        push_char(out, '0');
        push_char(out, '0');
        push_char(out, hic);
        push_char(out, loc);
    } else {
        push_char(out, c);
    }
}

/// Writes a quoted, escaped JSON string literal.
pub(crate) fn write_str_lit(s: &str, out: &mut String)
    ensures
        final(out)@ == old(out)@ + str_lit(s@),
{
    push_char(out, '"');
    let n = s.unicode_len();
    let mut i: usize = 0;
    while i < n
        invariant
            n == s@.len(),
            i <= n,
            out@ == old(out)@.push('"') + esc_str(s@.take(i as int)),
        decreases n - i,
    {
        let c = s.get_char(i);
        proof {
            assert(s@.take(i as int).push(c) =~= s@.take(i + 1 as int));
            lemma_esc_str_snoc(s@.take(i as int), c);
        }
        write_esc_char(c, out);
        i = i + 1;
    }
    proof {
        assert(s@.take(n as int) =~= s@);
        assert(old(out)@.push('"') + esc_str(s@) + seq!['"'] =~= old(out)@ + str_lit(s@));
    }
    push_char(out, '"');
}

impl Json {
    /// Appends the canonical serialization of this value to `out`.
    #[verifier::loop_isolation(false)]
    #[verifier::rlimit(50)]
    pub fn write(&self, out: &mut String)
        ensures
            final(out)@ == old(out)@ + json_ser(self.deep_view()),
        decreases self,
    {
        match self {
            Json::Null => {
                push_char(out, 'n');
                push_char(out, 'u');
                push_char(out, 'l');
                push_char(out, 'l');
                proof {
                    assert(final(out)@ =~= old(out)@ + json_ser(self.deep_view()));
                }
            },
            Json::Bool(b) => {
                if *b {
                    push_char(out, 't');
                    push_char(out, 'r');
                    push_char(out, 'u');
                    push_char(out, 'e');
                } else {
                    push_char(out, 'f');
                    push_char(out, 'a');
                    push_char(out, 'l');
                    push_char(out, 's');
                    push_char(out, 'e');
                }
                proof {
                    assert(final(out)@ =~= old(out)@ + json_ser(self.deep_view()));
                }
            },
            Json::Num(s) => {
                out.append(s.as_str());
            },
            Json::Str(s) => {
                write_str_lit(s.as_str(), out);
            },
            Json::Arr(items) => {
                let ghost vals = jv_seq(items@);
                proof {
                    lemma_jv_seq_len(items@);
                }
                push_char(out, '[');
                let n = items.len();
                let mut i: usize = 0;
                while i < n
                    invariant
                        n == items@.len(),
                        i <= n,
                        vals == jv_seq(items@),
                        vals.len() == n,
                        i == 0 ==> out@ == old(out)@.push('['),
                        i > 0 ==> out@ == old(out)@.push('[') + json_ser(vals[0]) + arr_tail_ser(
                            vals.subrange(1, i as int),
                        ),
                    decreases n - i,
                {
                    proof {
                        lemma_jv_seq_index(items@, i as int);
                    }
                    proof {
                        assert(decreases_to!(self => items));
                        assert(decreases_to!(items => items@));
                        assert(decreases_to!(items@ => items@[i as int]));
                    }
                    if i > 0 {
                        push_char(out, ',');
                        items[i].write(out);
                        proof {
                            assert(vals.subrange(1, i as int).push(vals[i as int]) =~= vals
                                .subrange(1, i + 1 as int));
                            lemma_arr_tail_snoc(vals.subrange(1, i as int), vals[i as int]);
                            assert(out@ =~= old(out)@.push('[') + json_ser(vals[0])
                                + arr_tail_ser(vals.subrange(1, i + 1 as int)));
                        }
                    } else {
                        items[0].write(out);
                        proof {
                            assert(vals.subrange(1, 1) =~= Seq::<JsonVal>::empty());
                            assert(out@ =~= old(out)@.push('[') + json_ser(vals[0])
                                + arr_tail_ser(vals.subrange(1, 1)));
                        }
                    }
                    i = i + 1;
                }
                push_char(out, ']');
                proof {
                    if n == 0 {
                        assert(arr_items_ser(vals) =~= Seq::<char>::empty());
                    } else {
                        assert(vals.subrange(1, n as int) =~= vals.drop_first());
                        assert(arr_items_ser(vals) =~= json_ser(vals[0]) + arr_tail_ser(
                            vals.drop_first(),
                        ));
                    }
                    assert(final(out)@ =~= old(out)@ + json_ser(self.deep_view()));
                }
            },
            Json::Obj(fields) => {
                let ghost vals = jv_fields(fields@);
                proof {
                    lemma_jv_fields_len(fields@);
                }
                push_char(out, '{');
                let n = fields.len();
                let mut i: usize = 0;
                while i < n
                    invariant
                        n == fields@.len(),
                        i <= n,
                        vals == jv_fields(fields@),
                        vals.len() == n,
                        i == 0 ==> out@ == old(out)@.push('{'),
                        i > 0 ==> out@ == old(out)@.push('{') + field_ser(vals[0]) + obj_tail_ser(
                            vals.subrange(1, i as int),
                        ),
                    decreases n - i,
                {
                    proof {
                        lemma_jv_fields_index(fields@, i as int);
                    }
                    if i > 0 {
                        push_char(out, ',');
                    }
                    proof {
                        assert(decreases_to!(self => fields));
                        assert(decreases_to!(fields => fields@));
                        assert(decreases_to!(fields@ => fields@[i as int]));
                        assert(decreases_to!(fields@[i as int] => fields@[i as int].1));
                    }
                    write_str_lit(fields[i].0.as_str(), out);
                    push_char(out, ':');
                    fields[i].1.write(out);
                    proof {
                        if i > 0 {
                            assert(vals.subrange(1, i as int).push(vals[i as int]) =~= vals
                                .subrange(1, i + 1 as int));
                            lemma_obj_tail_snoc(vals.subrange(1, i as int), vals[i as int]);
                            assert(out@ =~= old(out)@.push('{') + field_ser(vals[0])
                                + obj_tail_ser(vals.subrange(1, i + 1 as int)));
                        } else {
                            assert(vals.subrange(1, 1) =~= Seq::<(Seq<char>, JsonVal)>::empty());
                            assert(out@ =~= old(out)@.push('{') + field_ser(vals[0])
                                + obj_tail_ser(vals.subrange(1, 1)));
                        }
                    }
                    i = i + 1;
                }
                push_char(out, '}');
                proof {
                    if n == 0 {
                        assert(obj_items_ser(vals) =~= Seq::<char>::empty());
                    } else {
                        assert(vals.subrange(1, n as int) =~= vals.drop_first());
                        assert(obj_items_ser(vals) =~= field_ser(vals[0]) + obj_tail_ser(
                            vals.drop_first(),
                        ));
                    }
                    assert(final(out)@ =~= old(out)@ + json_ser(self.deep_view()));
                }
            },
        }
    }

    /// The canonical serialization of this value as a fresh string.
    pub fn to_text(&self) -> (r: String)
        ensures
            r@ == json_ser(self.deep_view()),
    {
        let mut out = String::new();
        self.write(&mut out);
        out
    }

    /// Looks a key up when this value is an object; `None` otherwise or when
    /// the key is absent.
    #[verifier::loop_isolation(false)]
    pub fn get<'a>(&'a self, key: &str) -> (r: Option<&'a Json>)
        ensures
            match r {
                Some(v) => jv_get(self.jv(), key@) == Some(v.jv()),
                None => jv_get(self.jv(), key@) is None,
            },
    {
        match self {
            Json::Obj(fields) => {
                let ghost fs = jv_fields(fields@);
                proof {
                    lemma_jv_fields_len(fields@);
                }
                let n = fields.len();
                proof {
                    assert(fs.skip(0) =~= fs);
                }
                let mut i: usize = 0;
                while i < n
                    invariant
                        0 <= i <= n,
                        obj_get(fs, key@) == obj_get(fs.skip(i as int), key@),
                    decreases n - i,
                {
                    proof {
                        lemma_jv_fields_index(fields@, i as int);
                        assert(fs.skip(i as int)[0] == fs[i as int]);
                        assert(fs.skip(i as int).drop_first() =~= fs.skip(i + 1 as int));
                    }
                    if str_eq(fields[i].0.as_str(), key) {
                        return Some(&fields[i].1);
                    }
                    i = i + 1;
                }
                proof {
                    assert(fs.skip(n as int) =~= Seq::<(Seq<char>, JsonVal)>::empty());
                }
                None
            },
            _ => None,
        }
    }
}

/// Character sequences with equal UTF-8 encodings are equal.
pub proof fn lemma_encode_utf8_injective(a: Seq<char>, b: Seq<char>)
    requires
        vstd::utf8::encode_utf8(a) == vstd::utf8::encode_utf8(b),
    ensures
        a == b,
{
    vstd::utf8::encode_utf8_decode_utf8(a);
    vstd::utf8::encode_utf8_decode_utf8(b);
}

/// Whether two byte slices hold the same bytes.
#[verifier::loop_isolation(false)]
pub fn bytes_eq(a: &[u8], b: &[u8]) -> (r: bool)
    ensures
        r == (a@ == b@),
{
    if a.len() != b.len() {
        return false;
    }
    let n = a.len();
    let mut i: usize = 0;
    while i < n
        invariant
            0 <= i <= n,
            forall|j: int| 0 <= j < i ==> a@[j] == b@[j],
        decreases n - i,
    {
        if a[i] != b[i] {
            return false;
        }
        i = i + 1;
    }
    proof {
        assert(a@ =~= b@);
    }
    true
}

/// Whether two pieces of text hold the same characters.
pub fn str_eq(a: &str, b: &str) -> (r: bool)
    ensures
        r == (a@ == b@),
{
    let r = bytes_eq(a.as_bytes(), b.as_bytes());
    proof {
        if a@ == b@ {
            assert(a.spec_bytes() == b.spec_bytes());
        }
        if a.spec_bytes() == b.spec_bytes() {
            lemma_encode_utf8_injective(a@, b@);
        }
    }
    r
}

} // verus!
