//! JSON values as plain data, and reading fields out of them the way
//! `serde_json::Value` indexing does.
use vstd::prelude::*;
use crate::text::str_eq;

verus! {

/// A JSON value: numbers keep their value when it is an unsigned integer;
/// object members come in the parser's order, each key once.
#[derive(Debug)]
pub enum JsonValue {
    Null,
    Bool(bool),
    Number(Option<u64>),
    Text(String),
    Array(Vec<JsonValue>),
    Object(Vec<(String, JsonValue)>),
}

/// `serde_json::Value`, carried through as an opaque value.
#[verifier::external_type_specification]
#[verifier::external_body]
pub struct ExSerdeValue(serde_json::Value);

/// `serde_json::from_str::<Value>`: the JSON value the text holds, or the
/// parser's message. A function of the text alone.
pub uninterp spec fn json_value(text: Seq<char>) -> Result<JsonValue, Seq<char>>;

/// `serde_json::Value` as a `JsonValue`, one variant for one: a number as
/// `Value::as_u64` gives it. This is the conversion step of
/// `parse_json_value`, kept apart because it recurses; nothing is claimed of
/// it but through `parse_json_value`.
#[verifier::external_body]
fn json_value_of(v: serde_json::Value) -> JsonValue {
    match v {
        serde_json::Value::Null => JsonValue::Null,
        serde_json::Value::Bool(b) => JsonValue::Bool(b),
        serde_json::Value::Number(n) => JsonValue::Number(n.as_u64()),
        serde_json::Value::String(s) => JsonValue::Text(s),
        serde_json::Value::Array(a) => JsonValue::Array(a.into_iter().map(json_value_of).collect()),
        serde_json::Value::Object(o) => JsonValue::Object(
            o.into_iter().map(|(k, x)| (k, json_value_of(x))).collect(),
        ),
    }
}

/// `serde_json::from_str::<serde_json::Value>`: the value the text holds,
/// or the parser's message (see `json_value`).
#[verifier::external_body]
pub fn parse_json_value(text: &str) -> (r: Result<JsonValue, String>)
    ensures
        match r {
            Ok(v) => json_value(text@) == Ok::<JsonValue, Seq<char>>(v),
            Err(e) => json_value(text@) == Err::<JsonValue, Seq<char>>(e@),
        },
{
    match serde_json::from_str::<serde_json::Value>(text) {
        Ok(v) => Ok(json_value_of(v)),
        Err(e) => Err(e.to_string()),
    }
}

/// The first member with the given key, from position `i` on.
pub open spec fn member_from(o: Seq<(String, JsonValue)>, key: Seq<char>, i: int) -> Option<JsonValue>
    decreases o.len() - i,
{
    if i < 0 || i >= o.len() {
        None
    } else if o[i].0@ == key {
        Some(o[i].1)
    } else {
        member_from(o, key, i + 1)
    }
}

/// `Value::get(key)`: the member of an object, none for other values.
pub open spec fn member(v: JsonValue, key: Seq<char>) -> Option<JsonValue> {
    match v {
        JsonValue::Object(o) => member_from(o@, key, 0),
        _ => None,
    }
}

/// `value[key]`: the member, or null when there is none.
pub open spec fn field(v: JsonValue, key: Seq<char>) -> JsonValue {
    match member(v, key) {
        Some(x) => x,
        None => JsonValue::Null,
    }
}

/// `value[i]`: the element of an array, or null when there is none.
pub open spec fn element(v: JsonValue, i: int) -> JsonValue {
    match v {
        JsonValue::Array(a) => if 0 <= i < a@.len() {
            a@[i]
        } else {
            JsonValue::Null
        },
        _ => JsonValue::Null,
    }
}

/// `Value::as_str`.
pub open spec fn as_text(v: JsonValue) -> Option<Seq<char>> {
    match v {
        JsonValue::Text(s) => Some(s@),
        _ => None,
    }
}

/// `Value::as_u64`.
pub open spec fn as_unsigned(v: JsonValue) -> Option<u64> {
    match v {
        JsonValue::Number(n) => n,
        _ => None,
    }
}

/// `Value::get(key)` (see `member`).
pub fn get_member<'a>(v: &'a JsonValue, key: &str) -> (r: Option<&'a JsonValue>)
    ensures
        match r {
            Some(x) => member(*v, key@) == Some(*x),
            None => member(*v, key@) is None,
        },
{
    match v {
        JsonValue::Object(o) => {
            let mut i: usize = 0;
            while i < o.len()
                invariant
                    i <= o@.len(),
                    member(*v, key@) == member_from(o@, key@, 0),
                    member_from(o@, key@, 0) == member_from(o@, key@, i as int),
                decreases o@.len() - i,
            {
                if str_eq(o[i].0.as_str(), key) {
                    assert(member_from(o@, key@, i as int) == Some(o@[i as int].1));
                    return Some(&o[i].1);
                }
                i = i + 1;
            }
            None
        },
        _ => None,
    }
}

/// `Value::as_str`, as an owned string.
pub fn text_of(v: &JsonValue) -> (r: Option<String>)
    ensures
        crate::reflect::opt_view(r) == as_text(*v),
{
    match v {
        JsonValue::Text(s) => Some(s.clone()),
        _ => None,
    }
}

/// `Value::as_u64`.
pub fn unsigned_of(v: &JsonValue) -> (r: Option<u64>)
    ensures
        r == as_unsigned(*v),
{
    match v {
        JsonValue::Number(n) => *n,
        _ => None,
    }
}

} // verus!
