//! A JSON value built by the library, and its compact rendering through
//! serde_json.

use vstd::prelude::*;

verus! {

/// A JSON document. Object members are kept in the order they were added;
/// the rendering orders them by key.
#[derive(Debug, PartialEq)]
pub enum JsonValue {
    Null,
    Bool(bool),
    Number(u64),
    Str(String),
    Array(Vec<JsonValue>),
    Object(Vec<(String, JsonValue)>),
}

#[verifier::external_type_specification]
#[verifier::external_body]
pub struct ExSerdeJsonValue(serde_json::Value);

/// The compact text serde_json renders for a document.
pub uninterp spec fn rendered_json(v: JsonValue) -> Seq<u8>;

/// Relies on serde_json's `Value` constructors: the document with the same
/// shape, member for member. Used by `render_json` alone.
#[verifier::external_body]
fn to_serde_value(v: &JsonValue) -> serde_json::Value {
    match v {
        JsonValue::Null => serde_json::Value::Null,
        JsonValue::Bool(b) => serde_json::Value::Bool(*b),
        JsonValue::Number(n) => serde_json::Value::from(*n),
        JsonValue::Str(s) => serde_json::Value::String(s.clone()),
        JsonValue::Array(a) => serde_json::Value::Array(a.iter().map(to_serde_value).collect()),
        JsonValue::Object(f) => serde_json::Value::Object(
            f.iter().map(|(k, x)| (k.clone(), to_serde_value(x))).collect(),
        ),
    }
}

/// Relies on serde_json's `Display` for `Value` (compact form, members sorted by
/// key, a repeated key keeping its last value): the text depends on the document alone.
#[verifier::external_body]
fn render_json(v: &JsonValue) -> (r: Vec<u8>)
    ensures
        r@ == rendered_json(*v),
{
    to_serde_value(v).to_string().into_bytes()
}

impl JsonValue {
    /// The compact JSON text of this document.
    pub fn render(&self) -> (r: Vec<u8>)
        ensures
            r@ == rendered_json(*self),
    {
        render_json(self)
    }
}

pub open spec fn json_str_is(j: JsonValue, s: Seq<char>) -> bool {
    j matches JsonValue::Str(x) && x@ == s
}

/// Whether member `f` is named `k`.
pub open spec fn key_is(f: (String, JsonValue), k: Seq<char>) -> bool {
    f.0@ == k
}

pub open spec fn str_member(f: (String, JsonValue), k: Seq<char>, v: Seq<char>) -> bool {
    key_is(f, k) && json_str_is(f.1, v)
}

pub open spec fn members(j: JsonValue) -> Seq<(String, JsonValue)> {
    match j {
        JsonValue::Object(f) => f@,
        _ => Seq::empty(),
    }
}

pub open spec fn items(j: JsonValue) -> Seq<JsonValue> {
    match j {
        JsonValue::Array(a) => a@,
        _ => Seq::empty(),
    }
}

pub fn json_string(s: &str) -> (r: JsonValue)
    ensures
        json_str_is(r, s@),
{
    JsonValue::Str(crate::text::owned(s))
}

pub fn member(k: &str, v: JsonValue) -> (r: (String, JsonValue))
    ensures
        key_is(r, k@),
        r.1 == v,
{
    (crate::text::owned(k), v)
}

pub fn str_field(k: &str, v: &str) -> (r: (String, JsonValue))
    ensures
        str_member(r, k@, v@),
{
    (crate::text::owned(k), json_string(v))
}

} // verus!
