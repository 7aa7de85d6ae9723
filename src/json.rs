//! A mathematical model of JSON documents, and the contracts of the parts of
//! serde_json that the decoders use to read them.
use crate::MessageError;
use vstd::prelude::*;

verus! {

#[verifier::external_type_specification]
#[verifier::external_body]
pub struct ExValue(serde_json::Value);

#[verifier::external_type_specification]
#[verifier::external_body]
pub struct ExNumber(serde_json::Number);

#[verifier::external_type_specification]
#[verifier::external_body]
pub struct ExJsonError(serde_json::Error);

/// A JSON document as a tree of plain values. The members of an object are
/// kept in the order in which the object yields them.
pub enum Json {
    Null,
    Bool(bool),
    Number(serde_json::Number),
    Str(Seq<char>),
    Array(Seq<Json>),
    Object(Seq<(Seq<char>, Json)>),
}

/// What a `serde_json::Value` holds.
pub uninterp spec fn json_tree(v: serde_json::Value) -> Json;

/// The integer that `serde_json::Number::as_i64` reports, if the number is one.
pub uninterp spec fn number_as_i64(n: serde_json::Number) -> Option<i64>;

/// The document that `serde_json::from_str` reads from a text, if the text is one.
pub uninterp spec fn json_text(s: Seq<char>) -> Option<Json>;

pub open spec fn bool_of(j: Json) -> Option<bool> {
    match j {
        Json::Bool(b) => Some(b),
        _ => None,
    }
}

pub open spec fn i64_of(j: Json) -> Option<i64> {
    match j {
        Json::Number(n) => number_as_i64(n),
        _ => None,
    }
}

pub open spec fn str_of(j: Json) -> Option<Seq<char>> {
    match j {
        Json::Str(s) => Some(s),
        _ => None,
    }
}

/// The position of the first member named `key`, or -1.
pub open spec fn key_index(fs: Seq<(Seq<char>, Json)>, key: Seq<char>) -> int
    decreases fs.len(),
{
    if fs.len() == 0 {
        -1
    } else {
        let k = key_index(fs.drop_last(), key);
        if k >= 0 {
            k
        } else if fs.last().0 == key {
            fs.len() - 1
        } else {
            -1
        }
    }
}

/// The member of an object named `key`; `None` where there is none or `j`
/// is no object.
pub open spec fn get(j: Json, key: Seq<char>) -> Option<Json> {
    match j {
        Json::Object(fs) => {
            let i = key_index(fs, key);
            if 0 <= i < fs.len() {
                Some(fs[i].1)
            } else {
                None
            }
        },
        _ => None,
    }
}

pub open spec fn field_i64_of(j: Json, key: Seq<char>) -> Option<i64> {
    match get(j, key) {
        Some(x) => i64_of(x),
        None => None,
    }
}

pub open spec fn field_str_of(j: Json, key: Seq<char>) -> Option<Seq<char>> {
    match get(j, key) {
        Some(x) => str_of(x),
        None => None,
    }
}

pub open spec fn field_bool_of(j: Json, key: Seq<char>) -> Option<bool> {
    match get(j, key) {
        Some(x) => bool_of(x),
        None => None,
    }
}

/// A member of an object is smaller than the object.
pub proof fn lemma_get_decreases(j: Json, key: Seq<char>)
    requires
        get(j, key) is Some,
    ensures
        decreases_to!(j => get(j, key)->0),
{
    if let Json::Object(fs) = j {
        let i = key_index(fs, key);
        assert(decreases_to!(j => fs));
        assert(decreases_to!(fs => fs[i]));
        assert(decreases_to!(fs[i] => fs[i].1));
    }
}

pub assume_specification[ serde_json::Value::as_bool ](v: &serde_json::Value) -> (r: Option<bool>)
    ensures
        r == bool_of(json_tree(*v)),
;

pub assume_specification[ serde_json::Value::as_i64 ](v: &serde_json::Value) -> (r: Option<i64>)
    ensures
        r == match json_tree(*v) {
            Json::Number(n) => number_as_i64(n),
            _ => None,
        },
;

pub assume_specification[ serde_json::Value::as_str ](v: &serde_json::Value) -> (r: Option<&str>)
    ensures
        match json_tree(*v) {
            Json::Str(s) => r matches Some(t) && t@ == s,
            _ => r is None,
        },
;

pub assume_specification[ serde_json::Value::as_array ](v: &serde_json::Value) -> (r: Option<
    &Vec<serde_json::Value>,
>)
    ensures
        match json_tree(*v) {
            Json::Array(items) => r matches Some(a) && a@.len() == items.len() && forall|i: int|
                0 <= i < items.len() ==> #[trigger] json_tree(a@[i]) == items[i],
            _ => r is None,
        },
;

pub assume_specification[ serde_json::Value::is_null ](v: &serde_json::Value) -> (r: bool)
    ensures
        r == (json_tree(*v) is Null),
;

pub assume_specification[ serde_json::Value::as_number ](v: &serde_json::Value) -> (r: Option<
    &serde_json::Number,
>)
    ensures
        match json_tree(*v) {
            Json::Number(n) => r matches Some(m) && *m == n,
            _ => r is None,
        },
;

pub assume_specification[ <serde_json::Number as Clone>::clone ](n: &serde_json::Number) -> (r:
    serde_json::Number)
    ensures
        r == *n,
;

/// Relies on serde_json::from_str: parsing is a function of the text alone.
#[verifier::external_body]
pub(crate) fn parse_value(s: &str) -> (r: Result<serde_json::Value, serde_json::Error>)
    ensures
        match r {
            Ok(v) => json_text(s@) == Some(json_tree(v)),
            Err(_) => json_text(s@) is None,
        },
{
    serde_json::from_str::<serde_json::Value>(s)
}

/// Relies on serde_json::Value::get with a string index: the member of an
/// object under that name, and `None` for a value of any other kind.
#[verifier::external_body]
pub(crate) fn member<'a>(v: &'a serde_json::Value, key: &str) -> (r: Option<&'a serde_json::Value>)
    ensures
        match get(json_tree(*v), key@) {
            Some(x) => r matches Some(c) && json_tree(*c) == x,
            None => r is None,
        },
{
    v.get(key)
}

/// Relies on serde_json::Map::iter: the members of an object, in the order in
/// which the object holds them.
#[verifier::external_body]
pub(crate) fn members(v: &serde_json::Value) -> (r: Option<Vec<(&String, &serde_json::Value)>>)
    ensures
        match json_tree(*v) {
            Json::Object(fs) => r matches Some(m) && m@.len() == fs.len() && forall|i: int|
                0 <= i < fs.len() ==> #[trigger] m@[i].0@ == fs[i].0 && json_tree(*m@[i].1)
                    == fs[i].1,
            _ => r is None,
        },
{
    match v {
        serde_json::Value::Object(m) => Some(m.iter().collect()),
        _ => None,
    }
}

/// The integer member `key` of an object.
pub(crate) fn field_i64(v: &serde_json::Value, key: &str) -> (r: Option<i64>)
    ensures
        r == field_i64_of(json_tree(*v), key@),
{
    match member(v, key) {
        Some(x) => x.as_i64(),
        None => None,
    }
}

/// The string member `key` of an object.
pub(crate) fn field_str(v: &serde_json::Value, key: &str) -> (r: Option<String>)
    ensures
        match field_str_of(json_tree(*v), key@) {
            Some(s) => r matches Some(t) && t@ == s,
            None => r is None,
        },
{
    match member(v, key) {
        Some(x) => match x.as_str() {
            Some(s) => Some(s.to_owned()),
            None => None,
        },
        None => None,
    }
}

/// The boolean member `key` of an object.
pub(crate) fn field_bool(v: &serde_json::Value, key: &str) -> (r: Option<bool>)
    ensures
        r == field_bool_of(json_tree(*v), key@),
{
    match member(v, key) {
        Some(x) => x.as_bool(),
        None => None,
    }
}

/// What decoding a text gives, for a kind of value whose documents `ok`
/// accepts and `is_of` relates to their values.
pub open spec fn decodes<T>(
    s: Seq<char>,
    r: Result<T, MessageError>,
    ok: spec_fn(Json) -> bool,
    is_of: spec_fn(Json, T) -> bool,
) -> bool {
    match json_text(s) {
        None => r matches Err(MessageError::JsonCouldntParse(_)),
        Some(j) => if ok(j) {
            r matches Ok(x) && is_of(j, x)
        } else {
            r matches Err(MessageError::Schema)
        },
    }
}

} // verus!
