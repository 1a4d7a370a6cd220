//! JSON values as `serde_json` holds them, and the mathematical tree that
//! contracts use to speak of one.
//!
//! A `serde_json::Value` is opaque to the verifier. What it holds is named by
//! [`json_view`]; every function below is a thin, unverified call into
//! `serde_json` whose contract is stated over that name.

use vstd::prelude::*;

verus! {

/// A JSON document as a mathematical value.
pub enum JsonValue {
    Null,
    Bool(bool),
    /// A number written without fraction or exponent.
    Int(int),
    /// Any other number, by the 64 bits of its binary form.
    Real(u64),
    Str(Seq<char>),
    Array(Seq<JsonValue>),
    /// The members of an object, by key.
    Object(Map<Seq<char>, JsonValue>),
}

#[verifier::external_type_specification]
#[verifier::external_body]
pub struct ExValue(serde_json::Value);

/// What a `serde_json::Value` holds.
pub uninterp spec fn json_view(v: serde_json::Value) -> JsonValue;

/// What `serde_json::from_str` makes of a text: the document it denotes, or
/// `None` where the text is refused.
pub uninterp spec fn json_parse(text: Seq<char>) -> Option<JsonValue>;

/// The compact text that `serde_json` prints for a document.
pub uninterp spec fn json_text(v: JsonValue) -> Seq<char>;

/// The member of an object under `key`; `None` for a missing key and for
/// anything that is not an object.
pub open spec fn member(v: JsonValue, key: Seq<char>) -> Option<JsonValue> {
    match v {
        JsonValue::Object(members) => if members.contains_key(key) {
            Some(members[key])
        } else {
            None
        },
        _ => None,
    }
}

/// The characters of a JSON string; `None` for any other document.
pub open spec fn text_of(v: JsonValue) -> Option<Seq<char>> {
    match v {
        JsonValue::Str(s) => Some(s),
        _ => None,
    }
}

/// Whether `v` is the object that has each of the given pairs as a member
/// and no other member.
pub open spec fn is_object_of(v: JsonValue, fields: Seq<(String, serde_json::Value)>) -> bool {
    &&& v is Object
    &&& forall|k: Seq<char>|
        v->Object_0.contains_key(k) <==> exists|i: int|
            0 <= i < fields.len() && #[trigger] fields[i].0@ == k
    &&& forall|i: int|
        0 <= i < fields.len() ==> v->Object_0[#[trigger] fields[i].0@] == json_view(fields[i].1)
}

/// `Value::get` with a string index: the member under `key` where `v` is an
/// object that has one, `None` otherwise.
#[verifier::external_body]
pub(crate) fn value_get<'a>(v: &'a serde_json::Value, key: &str) -> (r: Option<&'a serde_json::Value>)
    ensures
        match r {
            Some(m) => member(json_view(*v), key@) == Some(json_view(*m)),
            None => member(json_view(*v), key@) is None,
        },
{
    v.get(key)
}

/// `Value::as_str`: the characters where `v` is a JSON string, `None`
/// otherwise.
#[verifier::external_body]
pub(crate) fn value_as_str<'a>(v: &'a serde_json::Value) -> (r: Option<&'a str>)
    ensures
        match r {
            Some(s) => text_of(json_view(*v)) == Some(s@),
            None => text_of(json_view(*v)) is None,
        },
{
    v.as_str()
}

/// `Value::clone`: a copy that holds the same document.
#[verifier::external_body]
pub(crate) fn value_clone(v: &serde_json::Value) -> (r: serde_json::Value)
    ensures
        json_view(r) == json_view(*v),
{
    v.clone()
}

/// `serde_json::from_str` to a `Value`, with the error dropped. The result
/// depends on the text alone and is named by [`json_parse`].
#[verifier::external_body]
pub(crate) fn parse_json(text: &str) -> (r: Option<serde_json::Value>)
    ensures
        match r {
            Some(v) => json_parse(text@) == Some(json_view(v)),
            None => json_parse(text@) is None,
        },
{
    serde_json::from_str::<serde_json::Value>(text).ok()
}

/// `Value::to_string`: the compact text of the document, named by
/// [`json_text`].
#[verifier::external_body]
pub(crate) fn value_to_text(v: &serde_json::Value) -> (s: String)
    ensures
        s@ == json_text(json_view(*v)),
{
    v.to_string()
}

/// `Value::Null`.
#[verifier::external_body]
pub(crate) fn json_null() -> (r: serde_json::Value)
    ensures
        json_view(r) == JsonValue::Null,
{
    serde_json::Value::Null
}

/// `Value::String`: the JSON string with the characters of `s`.
#[verifier::external_body]
pub(crate) fn json_string(s: String) -> (r: serde_json::Value)
    ensures
        json_view(r) == JsonValue::Str(s@),
{
    serde_json::Value::String(s)
}

/// `Value::from` on a signed integer: the JSON number of that value.
#[verifier::external_body]
pub(crate) fn json_signed(n: i64) -> (r: serde_json::Value)
    ensures
        json_view(r) == JsonValue::Int(n as int),
{
    serde_json::Value::from(n)
}

/// `Value::from` on an unsigned integer: the JSON number of that value.
#[verifier::external_body]
pub(crate) fn json_unsigned(n: u64) -> (r: serde_json::Value)
    ensures
        json_view(r) == JsonValue::Int(n as int),
{
    serde_json::Value::from(n)
}

/// `Value::Object` over a map collected from the pairs: the object that has
/// each pair as a member and no other. Keys must differ, so that no pair is
/// dropped.
#[verifier::external_body]
pub(crate) fn json_object(fields: Vec<(String, serde_json::Value)>) -> (r: serde_json::Value)
    requires
        forall|i: int, j: int| 0 <= i < j < fields.len() ==> fields[i].0@ != fields[j].0@,
    ensures
        is_object_of(json_view(r), fields@),
{
    serde_json::Value::Object(fields.into_iter().collect())
}

} // verus!
