//! JSON documents as the envelope code sees them.
//!
//! Payloads travel through the dispatch core as `serde_json::Value`. Parsing
//! and writing JSON is left to `serde_json`. Apart from [`quote`], nothing in
//! here is proved: the contracts state what the `serde_json` functions do, in
//! terms of [`Json`], the document that a value holds.

use serde_json::Value;
use vstd::prelude::*;

verus! {

/// `serde_json::Value`. The verifier sees nothing inside a value; what it
/// holds is spoken of through [`json_of`].
#[verifier::external_type_specification]
#[verifier::external_body]
pub struct ExValue(serde_json::Value);

/// A JSON document. A number is kept as its text; an object maps each key to
/// its member.
pub enum Json {
    Null,
    Bool(bool),
    Number(Seq<char>),
    Text(Seq<char>),
    Array(Seq<Json>),
    Object(Map<Seq<char>, Json>),
}

/// The document that a `serde_json::Value` holds.
pub uninterp spec fn json_of(value: Value) -> Json;

/// The document that `serde_json::from_slice` reads out of a byte string;
/// `None` for bytes that it rejects.
pub uninterp spec fn json_parsed(bytes: Seq<u8>) -> Option<Json>;

/// The text that `serde_json` writes for a document: compact, the keys of
/// an object in their order as strings. (That order is the one `serde_json`
/// keeps unless it is built with `preserve_order`, which this crate does not
/// ask for.)
pub uninterp spec fn json_text(doc: Json) -> Seq<char>;

/// The member of an object under a key; `None` for a missing key and for
/// every document that is not an object.
pub open spec fn json_member(doc: Json, key: Seq<char>) -> Option<Json> {
    match doc {
        Json::Object(members) => if members.contains_key(key) {
            Some(members[key])
        } else {
            None
        },
        _ => None,
    }
}

/// `serde_json::from_slice` at `Value`: succeeds exactly on well-formed JSON,
/// and the value then holds the document that the bytes denote. On failure the
/// parser's diagnostic comes back as text, of which nothing is claimed.
#[verifier::external_body]
pub(crate) fn parse(bytes: &[u8]) -> (res: Result<Value, String>)
    ensures
        res is Ok <==> json_parsed(bytes@) is Some,
        res matches Ok(v) ==> json_parsed(bytes@) == Some(json_of(v)),
{
    serde_json::from_slice::<Value>(bytes).map_err(|e| e.to_string())
}

/// `Value::get` with a string key: the member of an object under that key.
#[verifier::external_body]
pub(crate) fn member<'a>(value: &'a Value, key: &str) -> (res: Option<&'a Value>)
    ensures
        match json_member(json_of(*value), key@) {
            Some(doc) => res matches Some(v) && json_of(*v) == doc,
            None => res is None,
        },
{
    value.get(key)
}

/// `Value::as_str`: the text of a JSON string, `None` for any other document.
pub assume_specification<'a>[ Value::as_str ](value: &'a Value) -> (res: Option<&'a str>)
    ensures
        match json_of(*value) {
            Json::Text(text) => res matches Some(s) && s@ == text,
            _ => res is None,
        },
;

/// `Value::is_object`.
pub assume_specification[ Value::is_object ](value: &Value) -> (res: bool)
    ensures
        res == (json_of(*value) is Object),
;

/// `Value::is_null`.
pub assume_specification[ Value::is_null ](value: &Value) -> (res: bool)
    ensures
        res == (json_of(*value) is Null),
;

/// `Clone` of `Value`: the copy holds the same document.
pub assume_specification[ <Value as Clone>::clone ](value: &Value) -> (res: Value)
    ensures
        json_of(res) == json_of(*value),
;

/// The variant `Value::Null`.
#[verifier::external_body]
pub(crate) fn null() -> (res: Value)
    ensures
        json_of(res) == Json::Null,
{
    Value::Null
}

/// `Value::from` at `&str`: a JSON string with that text.
#[verifier::external_body]
pub(crate) fn text(s: &str) -> (res: Value)
    ensures
        json_of(res) == Json::Text(s@),
{
    Value::from(s)
}

/// `Display` of `Value`: the compact text of the document it holds.
#[verifier::external_body]
pub(crate) fn render(value: &Value) -> (res: String)
    ensures
        res@ == json_text(json_of(*value)),
{
    value.to_string()
}

/// The JSON string literal for a text, quoted and escaped.
pub fn quote(s: &str) -> (res: String)
    ensures
        res@ == json_text(Json::Text(s@)),
{
    let value = text(s);
    render(&value)
}

} // verus!
