//! A mathematical model of dynamically shaped JSON values, together with the
//! trusted interface to `serde_json`, which parses, prints and stores them.
//!
//! The plan document and the opaque attribute payloads inside it are JSON
//! trees of no fixed shape, so they are carried at run time as
//! `serde_json::Value`. Verified code never looks inside such a value
//! directly; it speaks of `jmodel(v)`, the abstract JSON tree that `v` holds,
//! and reads or builds values only through the contracts below.

use vstd::prelude::*;

verus! {

/// The abstract shape of a JSON value. Numbers are kept opaque: nothing in
/// this library ever reads one, it only carries them through.
#[verifier::ext_equal]
pub enum Jv {
    JNull,
    JBool { b: bool },
    JNum,
    JStr { s: Seq<char> },
    JArr { items: Seq<Jv> },
    JObj { fields: Map<Seq<char>, Jv> },
}

#[verifier::external_type_specification]
#[verifier::external_body]
pub struct ExValue(serde_json::Value);

#[verifier::external_type_specification]
#[verifier::external_body]
pub struct ExJsonError(serde_json::Error);

/// The abstract JSON tree that a `serde_json::Value` holds.
pub uninterp spec fn jmodel(v: serde_json::Value) -> Jv;

/// What parsing a text as a JSON document yields: `None` when the text is not
/// valid JSON, otherwise the parsed tree.
pub uninterp spec fn parsed_json(s: Seq<char>) -> Option<Jv>;

/// Whether a JSON value is an object with the given key present.
pub open spec fn obj_has(j: Jv, k: Seq<char>) -> bool {
    j is JObj && j->fields.dom().contains(k)
}

/// Whether a JSON value is an object whose given key holds a string.
pub open spec fn obj_has_str(j: Jv, k: Seq<char>) -> bool {
    obj_has(j, k) && j->fields[k] is JStr
}

/// The string under a key of a JSON object.
pub open spec fn obj_str(j: Jv, k: Seq<char>) -> Seq<char> {
    j->fields[k]->s
}

/// The models of each value in a sequence of values.
pub open spec fn jmodels(s: Seq<serde_json::Value>) -> Seq<Jv> {
    Seq::new(s.len(), |i: int| jmodel(s[i]))
}

/// The map built by inserting the given key/value pairs left to right
/// (a later pair with the same key wins).
pub open spec fn pairs_map(s: Seq<(String, serde_json::Value)>) -> Map<Seq<char>, Jv>
    decreases s.len(),
{
    if s.len() == 0 {
        Map::empty()
    } else {
        pairs_map(s.drop_last()).insert(s.last().0@, jmodel(s.last().1))
    }
}

/// Relies on `serde_json::from_str::<Value>`: parsing is a function of the
/// text alone, and an error means the text is not a valid JSON document.
#[verifier::external_body]
pub fn parse_json_text(s: &str) -> (r: Result<serde_json::Value, serde_json::Error>)
    ensures
        match r {
            Ok(v) => parsed_json(s@) == Some(jmodel(v)),
            Err(_) => parsed_json(s@) is None,
        },
{
    serde_json::from_str(s)
}

/// Relies on `serde_json::Value::get` with a string index: on an object it
/// looks the key up; on any other value, or when the key is absent, it
/// returns `None`.
#[verifier::external_body]
pub fn value_get<'a>(v: &'a serde_json::Value, key: &str) -> (r: Option<&'a serde_json::Value>)
    ensures
        match r {
            Some(x) => jmodel(*v) is JObj && jmodel(*v)->fields.dom().contains(key@)
                && jmodel(*x) == jmodel(*v)->fields[key@],
            None => !(jmodel(*v) is JObj && jmodel(*v)->fields.dom().contains(key@)),
        },
{
    v.get(key)
}

/// Relies on `serde_json::Value::as_str`: `Some` exactly on a JSON string,
/// returning its characters.
#[verifier::external_body]
pub fn value_as_str<'a>(v: &'a serde_json::Value) -> (r: Option<&'a str>)
    ensures
        match r {
            Some(s) => jmodel(*v) == (Jv::JStr { s: s@ }),
            None => !(jmodel(*v) is JStr),
        },
{
    v.as_str()
}

/// Relies on `serde_json::Value::as_array`: `Some` exactly on a JSON array,
/// returning its elements in order.
#[verifier::external_body]
pub fn value_as_array<'a>(v: &'a serde_json::Value) -> (r: Option<&'a Vec<serde_json::Value>>)
    ensures
        match r {
            Some(a) => jmodel(*v) == (Jv::JArr { items: jmodels(a@) }),
            None => !(jmodel(*v) is JArr),
        },
{
    v.as_array()
}

/// Relies on `serde_json::Value::is_object`: true exactly on a JSON object.
#[verifier::external_body]
pub fn value_is_object(v: &serde_json::Value) -> (r: bool)
    ensures
        r == (jmodel(*v) is JObj),
{
    v.is_object()
}

/// Relies on `Clone` for `serde_json::Value`: the clone holds the same tree.
#[verifier::external_body]
pub fn value_clone(v: &serde_json::Value) -> (r: serde_json::Value)
    ensures
        jmodel(r) == jmodel(*v),
{
    v.clone()
}

/// Relies on `serde_json::Value::Null` being the JSON null value.
#[verifier::external_body]
pub fn value_null() -> (r: serde_json::Value)
    ensures
        jmodel(r) == Jv::JNull,
{
    serde_json::Value::Null
}

/// Relies on `serde_json::Value::String` holding exactly the given text.
#[verifier::external_body]
pub fn value_string(s: String) -> (r: serde_json::Value)
    ensures
        jmodel(r) == (Jv::JStr { s: s@ }),
{
    serde_json::Value::String(s)
}

/// Relies on `serde_json::Value::Array` holding exactly the given elements in
/// order.
#[verifier::external_body]
pub fn value_array(items: Vec<serde_json::Value>) -> (r: serde_json::Value)
    ensures
        jmodel(r) == (Jv::JArr { items: jmodels(items@) }),
{
    serde_json::Value::Array(items)
}

/// Relies on `serde_json::Map::insert` (through `collect`): the object built
/// from the pairs maps each key to the value it was last paired with.
#[verifier::external_body]
pub fn value_object(pairs: Vec<(String, serde_json::Value)>) -> (r: serde_json::Value)
    ensures
        jmodel(r) == (Jv::JObj { fields: pairs_map(pairs@) }),
{
    serde_json::Value::Object(pairs.into_iter().collect())
}

/// Relies on `serde_json::to_string` on a `Value`: it always succeeds (the
/// writer is a vector, every object key is a string, and every number is
/// finite), and the produced text, if it is parseable at all, parses back to
/// the same tree. Parseability itself is not promised: the reader caps
/// recursion depth, which the printer does not.
#[verifier::external_body]
pub fn value_to_text(v: &serde_json::Value) -> (r: Result<String, serde_json::Error>)
    ensures
        r is Ok,
        r matches Ok(s) ==> (parsed_json(s@) is Some ==> parsed_json(s@) == Some(jmodel(*v))),
{
    serde_json::to_string(v)
}

} // verus!
