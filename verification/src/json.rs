//! A plain model of a JSON document, as the provider's HTTP replies and the
//! request parameters carry them, with the lookups the provider logic makes.

use vstd::prelude::*;
use crate::text::str_eq;

verus! {

/// A JSON value. Numbers keep the class that JSON parsing gives them: signed
/// integers, unsigned integers beyond `i64`, and other numbers by their text.
/// Objects keep their members in order; a lookup by key takes the first member
/// of that name.
pub enum JsonValue {
    Null,
    Bool(bool),
    Int(i64),
    UInt(u64),
    Float(String),
    Str(String),
    Array(Vec<JsonValue>),
    Object(Vec<(String, JsonValue)>),
}

/// The index of the first member named `key` at or after `from`.
pub open spec fn find_key(entries: Seq<(String, JsonValue)>, key: Seq<char>, from: int) -> Option<int>
    decreases entries.len() - from,
{
    if from < 0 || from >= entries.len() {
        None
    } else if entries[from].0@ == key {
        Some(from)
    } else {
        find_key(entries, key, from + 1)
    }
}

/// The member `key` of an object; nothing for other values or absent keys.
pub open spec fn json_get(v: JsonValue, key: Seq<char>) -> Option<JsonValue> {
    match v {
        JsonValue::Object(entries) => match find_key(entries@, key, 0) {
            Some(i) => Some(entries@[i].1),
            None => None,
        },
        _ => None,
    }
}

/// The text of a string value.
pub open spec fn json_as_str(v: JsonValue) -> Option<Seq<char>> {
    match v {
        JsonValue::Str(s) => Some(s@),
        _ => None,
    }
}

/// The value of an integer that fits in `i64`.
pub open spec fn json_as_i64(v: JsonValue) -> Option<i64> {
    match v {
        JsonValue::Int(i) => Some(i),
        JsonValue::UInt(u) => if u <= i64::MAX {
            Some(u as i64)
        } else {
            None
        },
        _ => None,
    }
}

/// The first element of a non-empty array.
pub open spec fn json_first(v: JsonValue) -> Option<JsonValue> {
    match v {
        JsonValue::Array(items) => if items@.len() > 0 {
            Some(items@[0])
        } else {
            None
        },
        _ => None,
    }
}

/// Lifts a lookup over an optional value.
pub open spec fn opt_get(v: Option<JsonValue>, key: Seq<char>) -> Option<JsonValue> {
    match v {
        Some(x) => json_get(x, key),
        None => None,
    }
}

/// Lifts `json_as_str` over an optional value.
pub open spec fn opt_str(v: Option<JsonValue>) -> Option<Seq<char>> {
    match v {
        Some(x) => json_as_str(x),
        None => None,
    }
}

/// Lifts `json_as_i64` over an optional value.
pub open spec fn opt_i64(v: Option<JsonValue>) -> Option<i64> {
    match v {
        Some(x) => json_as_i64(x),
        None => None,
    }
}

/// Lifts `json_first` over an optional value.
pub open spec fn opt_first(v: Option<JsonValue>) -> Option<JsonValue> {
    match v {
        Some(x) => json_first(x),
        None => None,
    }
}

/// An optional borrowed value read as an optional value.
pub open spec fn deref_opt(r: Option<&JsonValue>) -> Option<JsonValue> {
    match r {
        Some(x) => Some(*x),
        None => None,
    }
}

/// The member named `key` among `entries`.
pub fn entries_get<'a>(entries: &'a Vec<(String, JsonValue)>, key: &str) -> (r: Option<&'a JsonValue>)
    ensures
        deref_opt(r) == match find_key(entries@, key@, 0) {
            Some(i) => Some(entries@[i].1),
            None => None,
        },
{
    let mut i: usize = 0;
    while i < entries.len()
        invariant
            i <= entries.len(),
            find_key(entries@, key@, 0) == find_key(entries@, key@, i as int),
        decreases entries.len() - i,
    {
        if str_eq(entries[i].0.as_str(), key) {
            return Some(&entries[i].1);
        }
        i = i + 1;
    }
    None
}

impl JsonValue {
    /// `Value::get` with a string key.
    pub fn get(&self, key: &str) -> (r: Option<&JsonValue>)
        ensures
            deref_opt(r) == json_get(*self, key@),
    {
        match self {
            JsonValue::Object(entries) => entries_get(entries, key),
            _ => None,
        }
    }

    /// `Value::as_str`.
    pub fn as_str(&self) -> (r: Option<&str>)
        ensures
            match r {
                Some(s) => json_as_str(*self) == Some(s@),
                None => json_as_str(*self) is None,
            },
    {
        match self {
            JsonValue::Str(s) => Some(s.as_str()),
            _ => None,
        }
    }

    /// `Value::as_i64`.
    pub fn as_i64(&self) -> (r: Option<i64>)
        ensures
            r == json_as_i64(*self),
    {
        match self {
            JsonValue::Int(i) => Some(*i),
            JsonValue::UInt(u) => if *u <= 9223372036854775807u64 {
                Some(*u as i64)
            } else {
                None
            },
            _ => None,
        }
    }

    /// `Value::as_array` followed by `first`.
    pub fn first_element(&self) -> (r: Option<&JsonValue>)
        ensures
            deref_opt(r) == json_first(*self),
    {
        match self {
            JsonValue::Array(items) => if items.len() > 0 {
                Some(&items[0])
            } else {
                None
            },
            _ => None,
        }
    }
}

/// `get(key)` on an optional value.
pub fn get_opt<'a>(v: Option<&'a JsonValue>, key: &str) -> (r: Option<&'a JsonValue>)
    ensures
        deref_opt(r) == opt_get(deref_opt(v), key@),
{
    match v {
        Some(x) => x.get(key),
        None => None,
    }
}

/// `as_str()` on an optional value.
pub fn str_opt<'a>(v: Option<&'a JsonValue>) -> (r: Option<&'a str>)
    ensures
        match r {
            Some(s) => opt_str(deref_opt(v)) == Some(s@),
            None => opt_str(deref_opt(v)) is None,
        },
{
    match v {
        Some(x) => x.as_str(),
        None => None,
    }
}

} // verus!

