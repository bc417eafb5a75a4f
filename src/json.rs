//! A structured value model of JSON documents, with the conversions to and
//! from `serde_json`'s values and text.

use vstd::prelude::*;

verus! {

#[verifier::external_type_specification]
#[verifier::external_body]
pub struct ExValue(serde_json::Value);

#[verifier::external_type_specification]
#[verifier::external_body]
pub struct ExNumber(serde_json::Number);

#[verifier::external_type_specification]
#[verifier::external_body]
pub struct ExError(serde_json::Error);

/// Relies on serde_json's `Number::as_u64`: the value when it is a non-negative integer.
pub assume_specification[ serde_json::Number::as_u64 ](n: &serde_json::Number) -> (r: Option<u64>);

/// Relies on serde_json's `Number::as_i64`: the value when it is an integer in `i64`.
pub assume_specification[ serde_json::Number::as_i64 ](n: &serde_json::Number) -> (r: Option<i64>);

/// Relies on the derived `Clone` of serde_json's `Number`: a field-for-field copy.
pub assume_specification[ <serde_json::Number as Clone>::clone ](n: &serde_json::Number) -> (r: serde_json::Number)
    ensures
        r == *n,
;

/// Whether `serde_json` accepts the text as one JSON document.
pub uninterp spec fn is_json(text: Seq<char>) -> bool;

/// A JSON value. Integers are held as plain integers; every other number
/// is carried as `serde_json` parsed it.
#[derive(Debug)]
pub enum Json {
    Null,
    Bool(bool),
    UInt(u64),
    Int(i64),
    Float(serde_json::Number),
    Str(String),
    Array(Vec<Json>),
    Object(Vec<(String, Json)>),
}

/// One level of a `serde_json` value, with its children still unconverted.
#[derive(Debug)]
pub enum Layer {
    Null,
    Bool(bool),
    Number(serde_json::Number),
    Str(String),
    Array(Vec<serde_json::Value>),
    Object(Vec<(String, serde_json::Value)>),
}

/// The value that `serde_json` reads from an accepted text.
pub uninterp spec fn parsed(text: Seq<char>) -> serde_json::Value;

/// The top level of a `serde_json` value: its variant and its fields, with
/// an object's members in the map's own order.
pub uninterp spec fn layer_of(v: serde_json::Value) -> Layer;

/// The compact text that `serde_json` writes for a value.
pub uninterp spec fn text_of(v: serde_json::Value) -> Seq<char>;

/// Whether `v` holds at most `d` levels: a scalar is one level, and each
/// array or object adds one to the deepest of its items.
pub open spec fn within(v: serde_json::Value, d: nat) -> bool
    decreases d,
{
    d > 0 && match layer_of(v) {
        Layer::Array(vs) => forall|i: int|
            #![trigger vs@[i]]
            0 <= i < vs@.len() ==> within(vs@[i], (d - 1) as nat),
        Layer::Object(es) => forall|i: int|
            #![trigger es@[i]]
            0 <= i < es@.len() ==> within(es@[i].1, (d - 1) as nat),
        _ => true,
    }
}

/// Whether `j` is what `v` reads as, within `d` levels: the same variant,
/// the same strings and booleans, an integer or a carried number for a
/// number, and items and members in the same order.
pub open spec fn reads_as(v: serde_json::Value, j: Json, d: nat) -> bool
    decreases d,
{
    d > 0 && match layer_of(v) {
        Layer::Null => j is Null,
        Layer::Bool(b) => j == Json::Bool(b),
        Layer::Number(_) => j is UInt || j is Int || j is Float,
        Layer::Str(s) => j == Json::Str(s),
        Layer::Array(vs) => {
            &&& j is Array
            &&& j->Array_0@.len() == vs@.len()
            &&& forall|i: int|
                #![trigger vs@[i]]
                0 <= i < vs@.len() ==> reads_as(vs@[i], j->Array_0@[i], (d - 1) as nat)
        },
        Layer::Object(es) => {
            &&& j is Object
            &&& j->Object_0@.len() == es@.len()
            &&& forall|i: int|
                #![trigger es@[i]]
                0 <= i < es@.len() ==> es@[i].0 == j->Object_0@[i].0 && reads_as(
                    es@[i].1,
                    j->Object_0@[i].1,
                    (d - 1) as nat,
                )
        },
    }
}

/// Whether `v` is written from `j`: the same variant at the top, the same
/// string or boolean, and as many items for an array. An object's members
/// are put in the order of `serde_json`'s map.
pub open spec fn written_as(v: serde_json::Value, j: Json) -> bool {
    match j {
        Json::Null => layer_of(v) is Null,
        Json::Bool(b) => layer_of(v) == Layer::Bool(b),
        Json::UInt(_) => layer_of(v) is Number,
        Json::Int(_) => layer_of(v) is Number,
        Json::Float(n) => layer_of(v) == Layer::Number(n),
        Json::Str(s) => layer_of(v) == Layer::Str(s),
        Json::Array(js) => layer_of(v) is Array && layer_of(v)->Array_0@.len() == js@.len(),
        Json::Object(_) => layer_of(v) is Object,
    }
}

/// Relies on `serde_json::from_str`: it accepts exactly the texts that are
/// one JSON document, reads the same value from the same text, and refuses
/// a nesting of more than 128 arrays and objects.
#[verifier::external_body]
fn parse_value(text: &str) -> (r: Result<serde_json::Value, serde_json::Error>)
    ensures
        r is Ok <==> is_json(text@),
        r is Ok ==> r->Ok_0 == parsed(text@) && within(parsed(text@), MAX_DEPTH as nat),
{
    serde_json::from_str(text)
}

/// Relies on the variants of `serde_json::Value`: splits off the top level.
#[verifier::external_body]
fn peel(v: serde_json::Value) -> (r: Layer)
    ensures
        r == layer_of(v),
{
    match v {
        serde_json::Value::Null => Layer::Null,
        serde_json::Value::Bool(b) => Layer::Bool(b),
        serde_json::Value::Number(n) => Layer::Number(n),
        serde_json::Value::String(s) => Layer::Str(s),
        serde_json::Value::Array(a) => Layer::Array(a),
        serde_json::Value::Object(m) => Layer::Object(m.into_iter().collect()),
    }
}

/// Relies on the variants of `serde_json::Value`: builds the top level. An
/// object's members go into `serde_json`'s map, which orders them itself.
#[verifier::external_body]
fn wrap(layer: Layer) -> (r: serde_json::Value)
    ensures
        !(layer is Object) ==> layer_of(r) == layer,
        layer is Object ==> layer_of(r) is Object,
{
    match layer {
        Layer::Null => serde_json::Value::Null,
        Layer::Bool(b) => serde_json::Value::Bool(b),
        Layer::Number(n) => serde_json::Value::Number(n),
        Layer::Str(s) => serde_json::Value::String(s),
        Layer::Array(a) => serde_json::Value::Array(a),
        Layer::Object(m) => serde_json::Value::Object(m.into_iter().collect()),
    }
}

/// Relies on serde_json's `From<u64> for Number`.
#[verifier::external_body]
fn number_from_u64(u: u64) -> (r: serde_json::Number) {
    serde_json::Number::from(u)
}

/// Relies on serde_json's `From<i64> for Number`.
#[verifier::external_body]
fn number_from_i64(i: i64) -> (r: serde_json::Number) {
    serde_json::Number::from(i)
}

/// Relies on `Display` for `serde_json::Value`: the compact JSON text.
#[verifier::external_body]
fn value_text(v: &serde_json::Value) -> (r: String)
    ensures
        r@ == text_of(*v),
{
    v.to_string()
}

/// A bound on the levels of a value that `serde_json` reads, which refuses
/// more than 128 nested arrays and objects.
pub const MAX_DEPTH: u32 = 256;

impl Json {
    /// Builds the `serde_json` value that this value describes.
    pub fn to_value(&self) -> (r: serde_json::Value)
        ensures
            written_as(r, *self),
        decreases self,
    {
        match self {
            Json::Null => wrap(Layer::Null),
            Json::Bool(b) => wrap(Layer::Bool(*b)),
            Json::UInt(u) => wrap(Layer::Number(number_from_u64(*u))),
            Json::Int(i) => wrap(Layer::Number(number_from_i64(*i))),
            Json::Float(n) => wrap(Layer::Number(n.clone())),
            Json::Str(s) => wrap(Layer::Str(s.clone())),
            Json::Array(items) => {
                let mut out: Vec<serde_json::Value> = Vec::new();
                let mut i: usize = 0;
                while i < items.len()
                    invariant
                        *self == Json::Array(*items),
                        i <= items.len(),
                        out@.len() == i,
                    decreases items.len() - i,
                {
                    proof {
                        assert(decreases_to!(*self => self->Array_0));
                        assert(decreases_to!(*items => items[i as int]));
                        assert(decreases_to!(*self => items[i as int]));
                    }
                    out.push(items[i].to_value());
                    i = i + 1;
                }
                wrap(Layer::Array(out))
            },
            Json::Object(entries) => {
                let mut out: Vec<(String, serde_json::Value)> = Vec::new();
                let mut i: usize = 0;
                while i < entries.len()
                    invariant
                        *self == Json::Object(*entries),
                    decreases entries.len() - i,
                {
                    proof {
                        assert(decreases_to!(*self => self->Object_0));
                        assert(decreases_to!(*entries => entries[i as int]));
                        assert(decreases_to!(entries[i as int] => entries[i as int].1));
                        assert(decreases_to!(*self => entries[i as int].1));
                    }
                    let key = entries[i].0.clone();
                    out.push((key, entries[i].1.to_value()));
                    i = i + 1;
                }
                wrap(Layer::Object(out))
            },
        }
    }

    /// Converts a `serde_json` value, following at most `depth` levels of
    /// nesting; `None` where it is nested deeper.
    pub fn from_value(v: serde_json::Value, depth: u32) -> (r: Option<Json>)
        ensures
            within(v, depth as nat) ==> r is Some,
            r matches Some(j) ==> reads_as(v, j, depth as nat),
        decreases depth,
    {
        if depth == 0 {
            return None;
        }
        let ghost v0 = v;
        let ghost d: nat = (depth as nat - 1) as nat;
        let layer = peel(v);
        assert(layer == layer_of(v0));
        match layer {
            Layer::Null => Some(Json::Null),
            Layer::Bool(b) => Some(Json::Bool(b)),
            Layer::Number(n) => match n.as_u64() {
                Some(u) => Some(Json::UInt(u)),
                None => match n.as_i64() {
                    Some(i) => Some(Json::Int(i)),
                    None => Some(Json::Float(n)),
                },
            },
            Layer::Str(s) => Some(Json::Str(s)),
            Layer::Array(mut items) => {
                let ghost vs = items@;
                proof {
                    assert(layer_of(v0) is Array);
                    assert(layer_of(v0)->Array_0@ == vs);
                    if within(v0, depth as nat) {
                        assert(forall|i: int| 0 <= i < vs.len() ==> within(#[trigger] vs[i], d));
                    }
                }
                let mut reversed: Vec<Json> = Vec::new();
                while items.len() > 0
                    invariant
                        v0 == v,
                        depth > 0,
                        d == depth - 1,
                        layer_of(v0) is Array && layer_of(v0)->Array_0@ == vs,
                        items@ == vs.subrange(0, items@.len() as int),
                        reversed@.len() + items@.len() == vs.len(),
                        forall|k: int|
                            0 <= k < reversed@.len() ==> reads_as(
                                vs[vs.len() - 1 - k],
                                #[trigger] reversed@[k],
                                d,
                            ),
                        within(v0, depth as nat) ==> forall|i: int|
                            0 <= i < vs.len() ==> within(#[trigger] vs[i], d),
                    decreases items.len(),
                {
                    let item = items.pop().unwrap();
                    proof {
                        assert(item == vs[vs.len() - 1 - reversed@.len()]);
                        assert(d == (depth - 1) as nat);
                        if within(v0, depth as nat) {
                            assert(within(vs[vs.len() - 1 - reversed@.len()], d));
                            assert(within(item, (depth - 1) as nat));
                        }
                    }
                    match Json::from_value(item, depth - 1) {
                        Some(j) => reversed.push(j),
                        None => return None,
                    }
                }
                let ghost rev = reversed@;
                let mut out: Vec<Json> = Vec::new();
                while reversed.len() > 0
                    invariant
                        layer_of(v0) is Array && layer_of(v0)->Array_0@ == vs,
                        depth > 0,
                        d == depth - 1,
                        rev.len() == vs.len(),
                        reversed@ == rev.subrange(0, reversed@.len() as int),
                        out@.len() + reversed@.len() == vs.len(),
                        forall|k: int| 0 <= k < rev.len() ==> reads_as(vs[vs.len() - 1 - k], #[trigger] rev[k], d),
                        forall|k: int| 0 <= k < out@.len() ==> reads_as(vs[k], #[trigger] out@[k], d),
                    decreases reversed.len(),
                {
                    let x = reversed.pop().unwrap();
                    proof {
                        let k = out@.len() as int;
                        assert(x == rev[vs.len() - 1 - k]);
                        assert(vs.len() - 1 - (vs.len() - 1 - k) == k);
                        assert(reads_as(vs[k], x, d));
                    }
                    out.push(x);
                }
                let r = Json::Array(out);
                assert(reads_as(v0, r, depth as nat));
                Some(r)
            },
            Layer::Object(mut entries) => {
                let ghost es = entries@;
                proof {
                    assert(layer_of(v0)->Object_0@ == es);
                    if within(v0, depth as nat) {
                        assert(forall|i: int| 0 <= i < es.len() ==> within((#[trigger] es[i]).1, d));
                    }
                }
                let mut reversed: Vec<(String, Json)> = Vec::new();
                while entries.len() > 0
                    invariant
                        v0 == v,
                        depth > 0,
                        d == depth - 1,
                        layer_of(v0) is Object && layer_of(v0)->Object_0@ == es,
                        entries@ == es.subrange(0, entries@.len() as int),
                        reversed@.len() + entries@.len() == es.len(),
                        forall|k: int|
                            0 <= k < reversed@.len() ==> es[es.len() - 1 - k].0 == (#[trigger] reversed@[k]).0,
                        forall|k: int|
                            0 <= k < reversed@.len() ==> reads_as(es[es.len() - 1 - k].1, (#[trigger] reversed@[k]).1, d),
                        within(v0, depth as nat) ==> forall|i: int|
                            0 <= i < es.len() ==> within((#[trigger] es[i]).1, d),
                    decreases entries.len(),
                {
                    let (key, item) = entries.pop().unwrap();
                    proof {
                        assert((key, item) == es[es.len() - 1 - reversed@.len()]);
                        assert(d == (depth - 1) as nat);
                        if within(v0, depth as nat) {
                            assert(within(es[es.len() - 1 - reversed@.len()].1, d));
                            assert(within(item, (depth - 1) as nat));
                        }
                    }
                    match Json::from_value(item, depth - 1) {
                        Some(j) => reversed.push((key, j)),
                        None => return None,
                    }
                }
                let ghost rev = reversed@;
                let mut out: Vec<(String, Json)> = Vec::new();
                while reversed.len() > 0
                    invariant
                        layer_of(v0) is Object && layer_of(v0)->Object_0@ == es,
                        depth > 0,
                        d == depth - 1,
                        rev.len() == es.len(),
                        reversed@ == rev.subrange(0, reversed@.len() as int),
                        out@.len() + reversed@.len() == es.len(),
                        forall|k: int| 0 <= k < rev.len() ==> es[es.len() - 1 - k].0 == (#[trigger] rev[k]).0,
                        forall|k: int|
                            0 <= k < rev.len() ==> reads_as(es[es.len() - 1 - k].1, (#[trigger] rev[k]).1, d),
                        forall|k: int| 0 <= k < out@.len() ==> es[k].0 == (#[trigger] out@[k]).0,
                        forall|k: int| 0 <= k < out@.len() ==> reads_as(es[k].1, (#[trigger] out@[k]).1, d),
                    decreases reversed.len(),
                {
                    let x = reversed.pop().unwrap();
                    proof {
                        let k = out@.len() as int;
                        assert(x == rev[es.len() - 1 - k]);
                        assert(es.len() - 1 - (es.len() - 1 - k) == k);
                        assert(reads_as(es[k].1, x.1, d));
                        assert(es[k].0 == x.0);
                    }
                    out.push(x);
                }
                let r = Json::Object(out);
                assert(reads_as(v0, r, depth as nat));
                Some(r)
            },
        }
    }

    /// Parses JSON text: what `serde_json` reads, where it accepts the text.
    pub fn parse(text: &str) -> (r: Option<Json>)
        ensures
            !is_json(text@) ==> r is None,
            is_json(text@) ==> (r matches Some(j) && reads_as(parsed(text@), j, MAX_DEPTH as nat)),
    {
        match parse_value(text) {
            Ok(v) => Json::from_value(v, MAX_DEPTH),
            Err(_) => None,
        }
    }

    /// The compact JSON text of this value, as `serde_json` writes it.
    pub fn to_text(&self) -> (r: String)
        ensures
            exists|v: serde_json::Value| written_as(v, *self) && r@ == text_of(v),
    {
        let v = self.to_value();
        value_text(&v)
    }
}

} // verus!
