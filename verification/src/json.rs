//! Mathematical model of the JSON documents the provider sends, and the
//! trusted boundary to `serde_json` that the model speaks about.
//!
//! A parsed document is held as an opaque `serde_json::Value`; the spec
//! function [`value_rep`] names the document it represents, and each trusted
//! accessor states exactly which shape of document answers it. Everything
//! that walks a document (lookups, filters, sample mapping) is verified
//! code over these contracts.

use vstd::prelude::*;

verus! {

/// A JSON document, as specification data. Numbers carry the integer they
/// denote when they denote one representable as `i64`, and always carry
/// their rendered text, so that non-integer values survive without a
/// floating-point field.
pub enum JsonRep {
    Null,
    Bool(bool),
    Num(Option<i64>, Seq<char>),
    Text(Seq<char>),
    Arr(Seq<JsonRep>),
    Obj(Seq<(Seq<char>, JsonRep)>),
}

/// The document that `serde_json::from_str::<Value>` yields for `s`, if any.
pub uninterp spec fn json_of(s: Seq<char>) -> Option<JsonRep>;

/// The document a given `serde_json::Value` represents. Object entries come
/// in the order `serde_json`'s map iterates them, with keys unique.
pub uninterp spec fn value_rep(v: serde_json::Value) -> JsonRep;

#[verifier::external_type_specification]
#[verifier::external_body]
pub struct ExValue(serde_json::Value);

/// The documents represented by each element of a vector of values.
pub open spec fn vals_rep(vs: Seq<serde_json::Value>) -> Seq<JsonRep> {
    vs.map_values(|v: serde_json::Value| value_rep(v))
}

/// The (key, document) pairs represented by a vector of object entries.
pub open spec fn entries_rep(es: Seq<(String, serde_json::Value)>) -> Seq<(Seq<char>, JsonRep)> {
    es.map_values(|e: (String, serde_json::Value)| (e.0@, value_rep(e.1)))
}

/// First value under `k` in an entry sequence, if any.
pub open spec fn obj_lookup(es: Seq<(Seq<char>, JsonRep)>, k: Seq<char>) -> Option<JsonRep>
    decreases es.len(),
{
    if es.len() == 0 {
        None
    } else if es[0].0 == k {
        Some(es[0].1)
    } else {
        obj_lookup(es.drop_first(), k)
    }
}

/// Lookup under a key of an object document, `None` for any other document.
pub open spec fn rep_get(r: JsonRep, k: Seq<char>) -> Option<JsonRep> {
    match r {
        JsonRep::Obj(es) => obj_lookup(es, k),
        _ => None,
    }
}

/// Relies on `serde_json::from_str::<Value>`: whether a text parses, and to
/// which document, is a function of the text alone; the empty text does not
/// parse.
#[verifier::external_body]
pub fn parse_value(s: &str) -> (r: Option<serde_json::Value>)
    ensures
        match json_of(s@) {
            Some(rep) => r matches Some(v) && value_rep(v) == rep,
            None => r is None,
        },
        r is None || s@.len() > 0,
{
    serde_json::from_str::<serde_json::Value>(s).ok()
}

/// Relies on `serde_json::Value::as_bool`: `Some` exactly on booleans.
#[verifier::external_body]
pub fn value_as_bool(v: &serde_json::Value) -> (r: Option<bool>)
    ensures
        match value_rep(*v) {
            JsonRep::Bool(b) => r == Some(b),
            _ => r is None,
        },
{
    v.as_bool()
}

/// Relies on `serde_json::Value::as_i64`: `Some` exactly on numbers that
/// denote an `i64`.
#[verifier::external_body]
pub fn value_as_i64(v: &serde_json::Value) -> (r: Option<i64>)
    ensures
        match value_rep(*v) {
            JsonRep::Num(oi, t) => r == oi,
            _ => r is None,
        },
{
    v.as_i64()
}

/// Relies on `serde_json::Number`'s `Display`: the rendered text of a number
/// is a function of the number alone.
#[verifier::external_body]
pub fn value_number_text(v: &serde_json::Value) -> (r: Option<String>)
    ensures
        match value_rep(*v) {
            JsonRep::Num(oi, t) => r matches Some(s) && s@ == t,
            _ => r is None,
        },
{
    match v {
        serde_json::Value::Number(n) => Some(n.to_string()),
        _ => None,
    }
}

/// Relies on `serde_json::Value::as_str`: `Some` exactly on strings.
#[verifier::external_body]
pub fn value_as_str(v: &serde_json::Value) -> (r: Option<String>)
    ensures
        match value_rep(*v) {
            JsonRep::Text(t) => r matches Some(s) && s@ == t,
            _ => r is None,
        },
{
    v.as_str().map(|s| s.to_string())
}

/// Relies on `serde_json::Value::as_array`: `Some` exactly on arrays, whose
/// elements come back in order.
#[verifier::external_body]
pub fn value_as_array(v: &serde_json::Value) -> (r: Option<Vec<serde_json::Value>>)
    ensures
        match value_rep(*v) {
            JsonRep::Arr(es) => r matches Some(vs) && vals_rep(vs@) == es,
            _ => r is None,
        },
{
    v.as_array().cloned()
}

/// Relies on `serde_json::Value::as_object` and the map's iteration:
/// `Some` exactly on objects, entries in iteration order, keys unique.
#[verifier::external_body]
pub fn value_as_object_entries(v: &serde_json::Value) -> (r: Option<
    Vec<(String, serde_json::Value)>,
>)
    ensures
        match value_rep(*v) {
            JsonRep::Obj(es) => r matches Some(ps) && entries_rep(ps@) == es,
            _ => r is None,
        },
{
    v.as_object().map(|m| m.iter().map(|(k, x)| (k.clone(), x.clone())).collect())
}

/// Index of the first entry under `key`, agreeing with [`obj_lookup`] on the
/// entries' representation.
pub fn lookup_entry(entries: &Vec<(String, serde_json::Value)>, key: &String) -> (r: Option<usize>)
    ensures
        match r {
            Some(i) => i < entries@.len() && entries@[i as int].0@ == key@ && obj_lookup(
                entries_rep(entries@),
                key@,
            ) == Some(value_rep(entries@[i as int].1)),
            None => obj_lookup(entries_rep(entries@), key@) is None,
        },
{
    let ghost es = entries_rep(entries@);
    proof {
        assert(es.skip(0) =~= es);
    }
    let mut i: usize = 0;
    while i < entries.len()
        invariant
            i <= entries@.len(),
            es == entries_rep(entries@),
            es.len() == entries@.len(),
            obj_lookup(es, key@) == obj_lookup(es.skip(i as int), key@),
            forall|j: int| 0 <= j < i ==> #[trigger] es[j].0 != key@,
        decreases entries@.len() - i,
    {
        if entries[i].0 == *key {
            proof {
                reveal_obj_lookup_head(es, i as int, key@);
            }
            return Some(i);
        }
        proof {
            reveal_obj_lookup_head(es, i as int, key@);
        }
        i = i + 1;
    }
    None
}

/// Unfolds one step of [`obj_lookup`] on the suffix that starts at `i`.
proof fn reveal_obj_lookup_head(es: Seq<(Seq<char>, JsonRep)>, i: int, k: Seq<char>)
    requires
        0 <= i < es.len(),
    ensures
        es[i].0 == k ==> obj_lookup(es.skip(i), k) == Some(es[i].1),
        es[i].0 != k ==> obj_lookup(es.skip(i), k) == obj_lookup(es.skip(i + 1), k),
{
    assert(es.skip(i).len() == es.len() - i);
    assert(es.skip(i)[0] == es[i]);
    if es[i].0 != k {
        assert(es.skip(i).drop_first() =~= es.skip(i + 1));
    }
}

/// Relies on `serde_json::Value::clone`: a clone represents the same
/// document.
#[verifier::external_body]
pub fn value_clone(v: &serde_json::Value) -> (r: serde_json::Value)
    ensures
        value_rep(r) == value_rep(*v),
{
    v.clone()
}

/// The value under `key` when `v` is an object that has one, per the
/// representation's lookup.
pub fn get_key(v: &serde_json::Value, key: &String) -> (r: Option<serde_json::Value>)
    ensures
        match r {
            Some(w) => rep_get(value_rep(*v), key@) == Some(value_rep(w)),
            None => rep_get(value_rep(*v), key@) is None,
        },
{
    let entries = value_as_object_entries(v);
    match entries {
        None => None,
        Some(es) => {
            match lookup_entry(&es, key) {
                None => None,
                Some(i) => {
                    proof {
                        assert(entries_rep(es@)[i as int].1 == value_rep(es@[i as int].1));
                    }
                    Some(value_clone(&es[i].1))
                },
            }
        },
    }
}

} // verus!
