//! JSON values: what serde_json's `Value` holds, and the calls into serde_json
//! that read, build, parse and print one.

use serde_json::Value;
use vstd::prelude::*;

verus! {

/// serde_json's own JSON value. Its contents are named by [`json_of`].
#[verifier::external_type_specification]
#[verifier::external_body]
pub struct ExValue(serde_json::Value);

/// What a JSON value holds. A number is an integer, or else a float, of which
/// only the bits are kept.
pub enum Json {
    Null,
    Bool(bool),
    Int(int),
    Float(u64),
    Str(Seq<char>),
    Array(Seq<Json>),
    Object(Map<Seq<char>, Json>),
}

/// The contents of a JSON value.
pub uninterp spec fn json_of(value: serde_json::Value) -> Json;

/// The compact text that serde_json displays for a value with these contents.
pub uninterp spec fn json_text(contents: Json) -> Seq<char>;

/// What `serde_json::to_string` makes of a value with these contents: the
/// encoded text, or the text of its error.
pub uninterp spec fn json_encoded(contents: Json) -> Result<Seq<char>, Seq<char>>;

/// What `serde_json::from_str` reads from a text: the contents of the value, or
/// the text of its error.
pub uninterp spec fn json_parsed(text: Seq<char>) -> Result<Json, Seq<char>>;

impl Json {
    /// The field `key`, where this is an object that has it.
    pub open spec fn get(self, key: Seq<char>) -> Option<Json> {
        match self {
            Json::Object(m) => if m.contains_key(key) {
                Some(m[key])
            } else {
                None
            },
            _ => None,
        }
    }

    /// The characters, where this is a string.
    pub open spec fn as_str(self) -> Option<Seq<char>> {
        match self {
            Json::Str(s) => Some(s),
            _ => None,
        }
    }

    /// The items, where this is an array.
    pub open spec fn as_array(self) -> Option<Seq<Json>> {
        match self {
            Json::Array(s) => Some(s),
            _ => None,
        }
    }

    /// The first item, where this is an array that has one.
    pub open spec fn first(self) -> Option<Json> {
        match self {
            Json::Array(s) => if s.len() > 0 {
                Some(s[0])
            } else {
                None
            },
            _ => None,
        }
    }

    /// The truth value, where this is one.
    pub open spec fn as_bool(self) -> Option<bool> {
        match self {
            Json::Bool(b) => Some(b),
            _ => None,
        }
    }

    /// The integer, where this is one that fits in 64 bits with a sign.
    pub open spec fn as_i64(self) -> Option<i64> {
        match self {
            Json::Int(n) => if i64::MIN <= n <= i64::MAX {
                Some(n as i64)
            } else {
                None
            },
            _ => None,
        }
    }
}

/// What is reached from `v` by following `path`, one field after the other.
pub open spec fn at_path(v: Json, path: Seq<Seq<char>>) -> Option<Json>
    decreases path.len(),
{
    if path.len() == 0 {
        Some(v)
    } else {
        match v.get(path[0]) {
            Some(x) => at_path(x, path.drop_first()),
            None => None,
        }
    }
}

/// The names of the fields along a path.
pub open spec fn path_names(path: Seq<&str>) -> Seq<Seq<char>> {
    Seq::new(path.len(), |i: int| path[i]@)
}

/// The contents of a list of values.
pub open spec fn contents(values: Seq<Value>) -> Seq<Json> {
    Seq::new(values.len(), |i: int| json_of(values[i]))
}

/// The contents of an optional value.
pub open spec fn json_opt(value: Option<&Value>) -> Option<Json> {
    match value {
        Some(v) => Some(json_of(*v)),
        None => None,
    }
}

// ---------------------------------------------------------------------------
// Reading
// ---------------------------------------------------------------------------

/// `Value::get` with a string: the field of that name where the value is an
/// object that has it, and nothing otherwise.
#[verifier::external_body]
pub(crate) fn value_get<'a>(value: &'a Value, key: &str) -> (r: Option<&'a Value>)
    ensures
        json_opt(r) == json_of(*value).get(key@),
{
    value.get(key)
}

/// `Value::as_array`: the items where the value is an array, and nothing
/// otherwise.
#[verifier::external_body]
pub(crate) fn value_as_array(value: &Value) -> (r: Option<&Vec<Value>>)
    ensures
        match r {
            Some(items) => json_of(*value) == Json::Array(contents(items@)),
            None => json_of(*value).as_array() is None,
        },
{
    value.as_array()
}

/// `Value::as_str`: the characters where the value is a string, and nothing
/// otherwise.
#[verifier::external_body]
pub(crate) fn value_as_str(value: &Value) -> (r: Option<&str>)
    ensures
        match r {
            Some(s) => json_of(*value) == Json::Str(s@),
            None => json_of(*value).as_str() is None,
        },
{
    value.as_str()
}

/// `Value::as_bool`: the truth value where the value is one, and nothing
/// otherwise.
#[verifier::external_body]
pub(crate) fn value_as_bool(value: &Value) -> (r: Option<bool>)
    ensures
        r == json_of(*value).as_bool(),
{
    value.as_bool()
}

/// `Value::as_i64`: the integer where the value is one that fits, and nothing
/// otherwise.
#[verifier::external_body]
pub(crate) fn value_as_i64(value: &Value) -> (r: Option<i64>)
    ensures
        r == json_of(*value).as_i64(),
{
    value.as_i64()
}

/// `Value::clone`: a value with the same contents.
#[verifier::external_body]
pub(crate) fn value_clone(value: &Value) -> (r: Value)
    ensures
        json_of(r) == json_of(*value),
{
    value.clone()
}

/// The `Display` of `Value`: its compact text.
#[verifier::external_body]
pub(crate) fn value_text(value: &Value) -> (r: String)
    ensures
        r@ == json_text(json_of(*value)),
{
    value.to_string()
}

/// What is reached from `value` by following `path`.
pub fn value_at<'a>(value: &'a Value, path: &[&str]) -> (r: Option<&'a Value>)
    ensures
        json_opt(r) == at_path(json_of(*value), path_names(path@)),
{
    let mut cur: &Value = value;
    let ghost full = path_names(path@);
    let mut i: usize = 0;
    assert(full.skip(0) =~= full);
    while i < path.len()
        invariant
            i <= path.len(),
            full == path_names(path@),
            at_path(json_of(*value), full) == at_path(json_of(*cur), full.skip(i as int)),
        decreases path.len() - i,
    {
        assert(full.skip(i as int).drop_first() =~= full.skip(i + 1));
        match value_get(cur, path[i]) {
            Some(v) => {
                cur = v;
            },
            None => {
                return None;
            },
        }
        i = i + 1;
    }
    Some(cur)
}

/// The first item of `value`, where it is an array that has one.
pub fn value_first(value: &Value) -> (r: Option<&Value>)
    ensures
        json_opt(r) == json_of(*value).first(),
{
    match value_as_array(value) {
        Some(items) => if items.len() > 0 {
            Some(&items[0])
        } else {
            None
        },
        None => None,
    }
}

/// The string at the field `key` of `value`, where there is one.
pub fn value_str_field<'a>(value: &'a Value, key: &str) -> (r: Option<&'a str>)
    ensures
        match r {
            Some(s) => json_of(*value).get(key@) == Some(Json::Str(s@)),
            None => match json_of(*value).get(key@) {
                Some(v) => v.as_str() is None,
                None => true,
            },
        },
{
    match value_get(value, key) {
        Some(v) => value_as_str(v),
        None => None,
    }
}

/// The contents of a value or an error text.
pub open spec fn json_result(r: Result<Value, String>) -> Result<Json, Seq<char>> {
    match r {
        Ok(v) => Ok(json_of(v)),
        Err(e) => Err(e@),
    }
}

// ---------------------------------------------------------------------------
// Building
// ---------------------------------------------------------------------------

/// `Value::Null`.
#[verifier::external_body]
pub(crate) fn value_null() -> (r: Value)
    ensures
        json_of(r) == Json::Null,
{
    Value::Null
}

/// `Value::Bool`.
#[verifier::external_body]
pub(crate) fn value_bool(b: bool) -> (r: Value)
    ensures
        json_of(r) == Json::Bool(b),
{
    Value::Bool(b)
}

/// `Value::from` on a signed integer.
#[verifier::external_body]
pub(crate) fn value_int(n: i64) -> (r: Value)
    ensures
        json_of(r) == Json::Int(n as int),
{
    Value::from(n)
}

/// `Value::from` on an unsigned integer.
#[verifier::external_body]
pub(crate) fn value_uint(n: u64) -> (r: Value)
    ensures
        json_of(r) == Json::Int(n as int),
{
    Value::from(n)
}

/// `Value::from` on a string slice: a string with the same characters.
#[verifier::external_body]
pub(crate) fn value_str(s: &str) -> (r: Value)
    ensures
        json_of(r) == Json::Str(s@),
{
    Value::from(s)
}

/// `Value::Array`: the items in order.
#[verifier::external_body]
pub(crate) fn value_array(items: Vec<Value>) -> (r: Value)
    ensures
        json_of(r) == Json::Array(contents(items@)),
{
    Value::Array(items)
}

/// `Value::Object` over an empty map.
#[verifier::external_body]
pub(crate) fn value_object() -> (r: Value)
    ensures
        json_of(r) == Json::Object(Map::empty()),
{
    Value::Object(serde_json::Map::new())
}

/// Assignment through `IndexMut` with a string: the field is set, and the other
/// fields stay. On a value that is neither an object nor null it panics.
#[verifier::external_body]
pub(crate) fn value_set(object: &mut Value, key: &str, value: Value)
    requires
        json_of(*old(object)) is Object,
    ensures
        json_of(*final(object)) == Json::Object(
            json_of(*old(object))->Object_0.insert(key@, json_of(value)),
        ),
{
    object[key] = value;
}

// ---------------------------------------------------------------------------
// Text
// ---------------------------------------------------------------------------

/// `serde_json::to_string` on a value. It always succeeds: the keys of an object
/// are strings, a number is never infinite, and writing to memory does not fail.
#[verifier::external_body]
pub(crate) fn encode_json(value: &Value) -> (r: Result<String, String>)
    ensures
        r is Ok,
        match r {
            Ok(text) => json_encoded(json_of(*value)) == Ok::<Seq<char>, Seq<char>>(text@),
            Err(e) => json_encoded(json_of(*value)) == Err::<Seq<char>, Seq<char>>(e@),
        },
{
    serde_json::to_string(value).map_err(|e| e.to_string())
}

/// `serde_json::from_str` into a value.
#[verifier::external_body]
pub(crate) fn parse_json(text: &str) -> (r: Result<Value, String>)
    ensures
        match r {
            Ok(v) => json_parsed(text@) == Ok::<Json, Seq<char>>(json_of(v)),
            Err(e) => json_parsed(text@) == Err::<Json, Seq<char>>(e@),
        },
{
    serde_json::from_str(text).map_err(|e| e.to_string())
}

/// A value that may be an error is modelled by what it holds, and so is a list of
/// values, in its order.
pub proof fn law_model_is_what_is_held(result: Result<Value, String>, values: Seq<Value>, i: int)
    ensures
        result matches Ok(v) ==> json_result(result) == Ok::<Json, Seq<char>>(json_of(v)),
        result matches Err(e) ==> json_result(result) == Err::<Json, Seq<char>>(e@),
        contents(values).len() == values.len(),
        0 <= i < values.len() ==> contents(values)[i] == json_of(values[i]),
{
}

/// A path is followed one field after the other, and ends where a field is missing.
pub proof fn law_path_is_followed(v: Json, key: Seq<char>, rest: Seq<Seq<char>>)
    ensures
        at_path(v, Seq::empty()) == Some(v),
        at_path(v, seq![key] + rest) == match v.get(key) {
            Some(field) => at_path(field, rest),
            None => None,
        },
{
    assert((seq![key] + rest).drop_first() =~= rest);
}

} // verus!
