//! A plain model of JSON documents, read and written through serde_json,
//! and the lookups the header and token logic makes on it.
use vstd::prelude::*;

verus! {

/// serde_json's number, carried through untouched.
#[verifier::external_type_specification]
#[verifier::external_body]
pub struct ExJsonNumber(serde_json::Number);

/// serde_json's document value, only ever converted to and from `Json`.
#[verifier::external_type_specification]
#[verifier::external_body]
pub struct ExJsonValue(serde_json::Value);

/// A JSON value. An object keeps its members in the order serde_json
/// iterates them.
#[derive(Debug)]
pub enum Json {
    Null,
    Bool(bool),
    Number(serde_json::Number),
    Str(String),
    Array(Vec<Json>),
    Object(Vec<(String, Json)>),
}

/// What `serde_json::from_slice` reads from `bytes` as a document, or its
/// error's text.
pub uninterp spec fn json_parsed(bytes: Seq<u8>) -> Result<Json, Seq<char>>;

/// The bytes `serde_json::to_vec` writes for the document `doc`.
pub uninterp spec fn json_serialized(doc: Json) -> Seq<u8>;

/// The `Json` form of a serde_json value, member for member.
#[verifier::external_body]
fn json_of_value(v: &serde_json::Value) -> Json {
    match v {
        serde_json::Value::Null => Json::Null,
        serde_json::Value::Bool(b) => Json::Bool(*b),
        serde_json::Value::Number(n) => Json::Number(n.clone()),
        serde_json::Value::String(s) => Json::Str(s.clone()),
        serde_json::Value::Array(a) => Json::Array(a.iter().map(json_of_value).collect()),
        serde_json::Value::Object(o) => Json::Object(
            o.iter().map(|(k, v)| (k.clone(), json_of_value(v))).collect(),
        ),
    }
}

/// The serde_json form of a `Json` value, member for member.
#[verifier::external_body]
fn value_of_json(j: &Json) -> serde_json::Value {
    match j {
        Json::Null => serde_json::Value::Null,
        Json::Bool(b) => serde_json::Value::Bool(*b),
        Json::Number(n) => serde_json::Value::Number(n.clone()),
        Json::Str(s) => serde_json::Value::String(s.clone()),
        Json::Array(a) => serde_json::Value::Array(a.iter().map(value_of_json).collect()),
        Json::Object(o) => serde_json::Value::Object(
            o.iter().map(|(k, v)| (k.clone(), value_of_json(v))).collect(),
        ),
    }
}

/// `r` carries the document, or the error text, that `named` names.
pub open spec fn same_parse(r: Result<Json, String>, named: Result<Json, Seq<char>>) -> bool {
    match r {
        Ok(doc) => named == Ok::<Json, Seq<char>>(doc),
        Err(e) => named == Err::<Json, Seq<char>>(e@),
    }
}

/// `serde_json::from_slice` into a document value: the document read from
/// `bytes`, or the text of the error that stopped it, as `json_parsed`
/// names them.
#[verifier::external_body]
pub(crate) fn parse_json(bytes: &[u8]) -> (r: Result<Json, String>)
    ensures
        same_parse(r, json_parsed(bytes@)),
{
    serde_json::from_slice::<serde_json::Value>(bytes)
        .map(|v| json_of_value(&v))
        .map_err(|e| e.to_string())
}

/// `serde_json::to_vec` of a document: the bytes `json_serialized` names.
/// On a `serde_json::Value` the call always succeeds: object keys are
/// strings, a number holds no NaN or infinity, and writing into a `Vec`
/// cannot fail, so the `Err` arm is never taken.
#[verifier::external_body]
pub(crate) fn serialize_json(doc: &Json) -> (r: Result<Vec<u8>, String>)
    ensures
        r is Ok,
        r matches Ok(bytes) ==> bytes@ == json_serialized(*doc),
{
    serde_json::to_vec(&value_of_json(doc)).map_err(|e| e.to_string())
}

/// The value of the first member named `key`.
pub open spec fn get_member(entries: Seq<(String, Json)>, key: Seq<char>) -> Option<Json>
    decreases entries.len(),
{
    if entries.len() == 0 {
        None
    } else if entries[0].0@ == key {
        Some(entries[0].1)
    } else {
        get_member(entries.drop_first(), key)
    }
}

/// The members of an object (none for any other value), as `Value::get`
/// sees them.
pub open spec fn fields_of(v: Json) -> Seq<(String, Json)> {
    match v {
        Json::Object(e) => e@,
        _ => seq![],
    }
}

/// The text of a string value.
pub open spec fn text_of(v: Option<Json>) -> Option<Seq<char>> {
    match v {
        Some(Json::Str(s)) => Some(s@),
        _ => None,
    }
}

/// The first member named `key`, by reference.
pub fn member<'a>(entries: &'a Vec<(String, Json)>, key: &str) -> (r: Option<&'a Json>)
    ensures
        r matches Some(j) ==> get_member(entries@, key@) == Some(*j),
        r is None ==> get_member(entries@, key@) is None,
{
    let mut i: usize = 0;
    assert(entries@.subrange(0, entries@.len() as int) =~= entries@);
    while i < entries.len()
        invariant
            i <= entries@.len(),
            get_member(entries@, key@) == get_member(entries@.subrange(i as int, entries@.len() as int), key@),
        decreases entries.len() - i,
    {
        let ghost rest = entries@.subrange(i as int, entries@.len() as int);
        assert(rest[0] == entries@[i as int]);
        if crate::text::text_eq(entries[i].0.as_str(), key) {
            return Some(&entries[i].1);
        }
        assert(rest.drop_first() =~= entries@.subrange(i + 1, entries@.len() as int));
        i = i + 1;
    }
    None
}

/// The member named `key` of `v` when `v` is an object.
pub fn field<'a>(v: &'a Json, key: &str) -> (r: Option<&'a Json>)
    ensures
        r matches Some(j) ==> get_member(fields_of(*v), key@) == Some(*j),
        r is None ==> get_member(fields_of(*v), key@) is None,
{
    match v {
        Json::Object(entries) => member(entries, key),
        _ => None,
    }
}

/// The text of `v` when it is a string.
pub fn text_value(v: Option<&Json>) -> (r: Option<String>)
    ensures
        match r {
            Some(s) => text_of(
                match v {
                    Some(j) => Some(*j),
                    None => None,
                },
            ) == Some(s@),
            None => text_of(
                match v {
                    Some(j) => Some(*j),
                    None => None,
                },
            ) is None,
        },
{
    match v {
        Some(Json::Str(s)) => Some(s.clone()),
        _ => None,
    }
}

} // verus!
