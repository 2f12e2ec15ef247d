//! JSON documents: the mathematical model of a parsed document, and the
//! defensive field readers that the normalisers are built from.

use vstd::prelude::*;

verus! {

/// A parsed JSON document is kept as `serde_json::Value`; nothing inside it is
/// visible to the verifier.
#[verifier::external_type_specification]
#[verifier::external_body]
pub struct ExValue(serde_json::Value);

/// What a JSON value is.
pub enum JsonModel {
    Null,
    Bool(bool),
    /// A number: the IEEE-754 bits of its double-precision reading, where it
    /// has one, and the digits it is written with.
    Number { bits: Option<u64>, literal: Seq<char> },
    Text(Seq<char>),
    Array(Seq<JsonModel>),
    Object(Map<Seq<char>, JsonModel>),
}

/// The model of a parsed document.
pub uninterp spec fn json_model(v: serde_json::Value) -> JsonModel;

/// What `serde_json::from_str` makes of a text: the document it parses to,
/// or nothing where it reports an error.
pub uninterp spec fn parsed_document(body: Seq<char>) -> Option<JsonModel>;

/// The compact JSON text that `serde_json::Value`'s `Display` writes for a value.
pub uninterp spec fn json_text(m: JsonModel) -> Seq<char>;

/// The value that `serde_json::Value::pointer` reaches from a document by a
/// JSON Pointer, if any.
pub uninterp spec fn pointer_target(m: JsonModel, pointer: Seq<char>) -> Option<JsonModel>;

/// The member of an object under a key; nothing for a missing key and for
/// anything that is not an object.
pub open spec fn member(m: JsonModel, key: Seq<char>) -> Option<JsonModel> {
    match m {
        JsonModel::Object(fields) => if fields.contains_key(key) {
            Some(fields[key])
        } else {
            None
        },
        _ => None,
    }
}

/// The member under `key` of an optional parent.
pub open spec fn member_of(parent: Option<JsonModel>, key: Seq<char>) -> Option<JsonModel> {
    match parent {
        Some(m) => member(m, key),
        None => None,
    }
}

/// Taking one member out of an object makes that member absent and leaves
/// every other member as it was.
pub proof fn lemma_member_dropped(fields: Map<Seq<char>, JsonModel>, gone: Seq<char>, key: Seq<char>)
    ensures
        member(JsonModel::Object(fields.remove(gone)), key) == if key == gone {
            None
        } else {
            member(JsonModel::Object(fields), key)
        },
{
}

/// The first of two optional values that is present.
pub open spec fn first_present(a: Option<JsonModel>, b: Option<JsonModel>) -> Option<JsonModel> {
    if a is Some { a } else { b }
}

/// The characters of a JSON string; nothing for any other value.
pub open spec fn as_text(m: Option<JsonModel>) -> Option<Seq<char>> {
    match m {
        Some(JsonModel::Text(s)) => Some(s),
        _ => None,
    }
}

/// The double-precision bits of a JSON number; nothing for any other value.
pub open spec fn as_bits(m: Option<JsonModel>) -> Option<u64> {
    match m {
        Some(JsonModel::Number { bits, literal }) => bits,
        _ => None,
    }
}

/// The truth value of a JSON boolean; nothing for any other value.
pub open spec fn as_flag(m: Option<JsonModel>) -> Option<bool> {
    match m {
        Some(JsonModel::Bool(b)) => Some(b),
        _ => None,
    }
}

/// The JSON text of a value of any kind, where there is one.
pub open spec fn as_rendered(m: Option<JsonModel>) -> Option<Seq<char>> {
    match m {
        Some(v) => Some(json_text(v)),
        None => None,
    }
}

/// The model of an optional borrowed document.
pub open spec fn model_of(v: Option<&serde_json::Value>) -> Option<JsonModel> {
    match v {
        Some(d) => Some(json_model(*d)),
        None => None,
    }
}

/// The view of an optional string.
pub open spec fn text_view(s: Option<String>) -> Option<Seq<char>> {
    match s {
        Some(t) => Some(t@),
        None => None,
    }
}

/// Calls `serde_json::from_str` for a `serde_json::Value`. The result is the
/// parsed document, or nothing where the parser reports an error; which of
/// the two, and which document, depends on the text alone.
#[verifier::external_body]
pub(crate) fn parse_document(body: &str) -> (r: Option<serde_json::Value>)
    ensures
        match r {
            Some(d) => parsed_document(body@) == Some(json_model(d)),
            None => parsed_document(body@) is None,
        },
{
    serde_json::from_str(body).ok()
}

/// Calls `serde_json::Value::get` with a string key: the member of an object
/// under that key, nothing for a missing key or a value that is no object.
#[verifier::external_body]
pub(crate) fn value_get<'a>(v: &'a serde_json::Value, key: &str) -> (r: Option<&'a serde_json::Value>)
    ensures
        model_of(r) == member(json_model(*v), key@),
{
    v.get(key)
}

/// Calls `serde_json::Value::pointer`: the value a JSON Pointer leads to.
#[verifier::external_body]
pub(crate) fn value_pointer<'a>(v: &'a serde_json::Value, pointer: &str) -> (r: Option<&'a serde_json::Value>)
    ensures
        model_of(r) == pointer_target(json_model(*v), pointer@),
{
    v.pointer(pointer)
}

/// Calls `serde_json::Value::as_str`: the characters of a JSON string, and
/// nothing for a value of any other kind.
#[verifier::external_body]
pub(crate) fn value_text(v: &serde_json::Value) -> (r: Option<String>)
    ensures
        text_view(r) == as_text(Some(json_model(*v))),
{
    v.as_str().map(String::from)
}

/// Calls `serde_json::Value::as_f64`: the double-precision reading of a JSON
/// number, handed on as its bits, and nothing for a value of any other kind.
#[verifier::external_body]
pub(crate) fn value_bits(v: &serde_json::Value) -> (r: Option<u64>)
    ensures
        r == as_bits(Some(json_model(*v))),
{
    v.as_f64().map(|x| x.to_bits())
}

/// Calls `serde_json::Value::as_bool`: the truth value of a JSON boolean, and
/// nothing for a value of any other kind.
#[verifier::external_body]
pub(crate) fn value_flag(v: &serde_json::Value) -> (r: Option<bool>)
    ensures
        r == as_flag(Some(json_model(*v))),
{
    v.as_bool()
}

/// Calls `to_string` on a `serde_json::Value`: its compact JSON text.
#[verifier::external_body]
pub(crate) fn value_render(v: &serde_json::Value) -> (r: String)
    ensures
        r@ == json_text(json_model(*v)),
{
    v.to_string()
}

/// The string under `key` in `v`.
pub fn text_field(v: &serde_json::Value, key: &str) -> (r: Option<String>)
    ensures
        text_view(r) == as_text(member(json_model(*v), key@)),
{
    match value_get(v, key) {
        Some(d) => value_text(d),
        None => None,
    }
}

/// The string under `key` in an optional parent.
pub fn text_field_of(parent: Option<&serde_json::Value>, key: &str) -> (r: Option<String>)
    ensures
        text_view(r) == as_text(member_of(model_of(parent), key@)),
{
    match parent {
        Some(v) => text_field(v, key),
        None => None,
    }
}

/// The number under `key` in `v`, as double-precision bits.
pub fn bits_field(v: &serde_json::Value, key: &str) -> (r: Option<u64>)
    ensures
        r == as_bits(member(json_model(*v), key@)),
{
    match value_get(v, key) {
        Some(d) => value_bits(d),
        None => None,
    }
}

/// The boolean under `key` in `v`.
pub fn flag_field(v: &serde_json::Value, key: &str) -> (r: Option<bool>)
    ensures
        r == as_flag(member(json_model(*v), key@)),
{
    match value_get(v, key) {
        Some(d) => value_flag(d),
        None => None,
    }
}

/// The boolean under `key` in an optional parent.
pub fn flag_field_of(parent: Option<&serde_json::Value>, key: &str) -> (r: Option<bool>)
    ensures
        r == as_flag(member_of(model_of(parent), key@)),
{
    match parent {
        Some(v) => flag_field(v, key),
        None => None,
    }
}

/// The JSON text of whatever stands under `key` in `v`.
pub fn rendered_field(v: &serde_json::Value, key: &str) -> (r: Option<String>)
    ensures
        text_view(r) == as_rendered(member(json_model(*v), key@)),
{
    match value_get(v, key) {
        Some(d) => Some(value_render(d)),
        None => None,
    }
}

/// The JSON text of whatever stands under `key` in an optional parent.
pub fn rendered_field_of(parent: Option<&serde_json::Value>, key: &str) -> (r: Option<String>)
    ensures
        text_view(r) == as_rendered(member_of(model_of(parent), key@)),
{
    match parent {
        Some(v) => rendered_field(v, key),
        None => None,
    }
}

/// The first of two optional documents that is present.
pub fn or_else<'a>(a: Option<&'a serde_json::Value>, b: Option<&'a serde_json::Value>) -> (r: Option<&'a serde_json::Value>)
    ensures
        model_of(r) == first_present(model_of(a), model_of(b)),
{
    match a {
        Some(_) => a,
        None => b,
    }
}

/// The string that an optional document is.
pub fn text_of(v: Option<&serde_json::Value>) -> (r: Option<String>)
    ensures
        text_view(r) == as_text(model_of(v)),
{
    match v {
        Some(d) => value_text(d),
        None => None,
    }
}

} // verus!
