//! JSON documents.
//!
//! Documents are parsed, inspected and rendered by `serde_json`. Verified code
//! reasons about a document through [`json_of`], the mathematical tree that a
//! `serde_json::Value` holds. Every function in this file calls into
//! `serde_json`, and its contract is trusted, not proved: it says what the
//! source of `serde_json` shows of the function that it calls. The rest of
//! the crate only sees these contracts.
//!
//! The members of an object are held by key. This is how `serde_json` holds
//! them unless it is built with `preserve_order`, which this crate does not
//! ask for.

use serde_json::Value;
use vstd::prelude::*;

verus! {

/// `serde_json::Value`, declared so that it can stand in signatures and in
/// fields. Nothing inside a value is visible to verified code: what a value
/// holds is named by [`json_of`], and the functions below say what
/// `serde_json` makes of it.
#[verifier::external_type_specification]
#[verifier::external_body]
pub struct ExValue(serde_json::Value);

/// A JSON number as far as this crate reads it.
pub struct JsonNumber {
    /// The number as a `u64`, when it is a non-negative integer that fits.
    pub unsigned: Option<u64>,
    /// The decimal numeral that `serde_json` prints for the number.
    pub text: Seq<char>,
}

/// The mathematical content of a JSON document.
pub enum Json {
    Null,
    Bool(bool),
    Number(JsonNumber),
    String(Seq<char>),
    Array(Seq<Json>),
    Object(Map<Seq<char>, Json>),
}

impl Json {
    /// The member `key` of an object; `None` for a missing member and for
    /// anything that is not an object.
    pub open spec fn member(self, key: Seq<char>) -> Option<Json> {
        match self {
            Json::Object(members) => if members.contains_key(key) {
                Some(members[key])
            } else {
                None
            },
            _ => None,
        }
    }

    /// The elements of an array; `None` for anything else.
    pub open spec fn elements(self) -> Option<Seq<Json>> {
        match self {
            Json::Array(items) => Some(items),
            _ => None,
        }
    }

    /// The truth value of a boolean; `None` for anything else.
    pub open spec fn boolean(self) -> Option<bool> {
        match self {
            Json::Bool(b) => Some(b),
            _ => None,
        }
    }

    /// The value of a non-negative integer that fits `u64`; `None` for
    /// anything else.
    pub open spec fn unsigned(self) -> Option<u64> {
        match self {
            Json::Number(n) => n.unsigned,
            _ => None,
        }
    }

    /// The characters of a string; `None` for anything else.
    pub open spec fn string(self) -> Option<Seq<char>> {
        match self {
            Json::String(s) => Some(s),
            _ => None,
        }
    }

    /// The numeral of a number; `None` for anything else.
    pub open spec fn numeral(self) -> Option<Seq<char>> {
        match self {
            Json::Number(n) => Some(n.text),
            _ => None,
        }
    }
}

/// The document that a `serde_json::Value` holds.
pub uninterp spec fn json_of(value: Value) -> Json;

/// What `serde_json::from_str` makes of a text: the document, or the message
/// of the error it reports.
pub uninterp spec fn parsed(text: Seq<char>) -> Result<Json, Seq<char>>;

/// The compact text that `serde_json` prints for a document: no white space,
/// the members of an object in the order of their keys.
pub uninterp spec fn rendered(document: Json) -> Seq<char>;

/// `serde_json::from_str::<Value>`: parses `text`. The outcome depends on the
/// text alone and is named by [`parsed`]; an error is handed back as its
/// message.
#[verifier::external_body]
pub(crate) fn parse(text: &str) -> (r: Result<Value, String>)
    ensures
        match r {
            Ok(value) => parsed(text@) == Ok::<Json, Seq<char>>(json_of(value)),
            Err(message) => parsed(text@) == Err::<Json, Seq<char>>(message@),
        },
{
    match serde_json::from_str::<Value>(text) {
        Ok(value) => Ok(value),
        Err(error) => Err(error.to_string()),
    }
}

/// `Value`'s `Display`: the compact rendering of the document, named by
/// [`rendered`].
#[verifier::external_body]
pub(crate) fn render(value: &Value) -> (r: String)
    ensures
        r@ == rendered(json_of(*value)),
{
    value.to_string()
}

/// `Value::get` with a string index: the member `key` if `value` is an object
/// that has it, `None` otherwise.
#[verifier::external_body]
pub(crate) fn member<'a>(value: &'a Value, key: &str) -> (r: Option<&'a Value>)
    ensures
        match r {
            Some(found) => json_of(*value).member(key@) == Some(json_of(*found)),
            None => json_of(*value).member(key@) is None,
        },
{
    value.get(key)
}

/// `Value::as_array`: the elements if `value` is an array, `None` otherwise.
#[verifier::external_body]
pub(crate) fn elements(value: &Value) -> (r: Option<&Vec<Value>>)
    ensures
        match r {
            Some(items) => json_of(*value).elements() == Some(
                Seq::new(items@.len(), |i: int| json_of(items@[i])),
            ),
            None => json_of(*value).elements() is None,
        },
{
    value.as_array()
}

/// `Value::as_bool`: the truth value if `value` is a boolean.
#[verifier::external_body]
pub(crate) fn boolean(value: &Value) -> (r: Option<bool>)
    ensures
        r == json_of(*value).boolean(),
{
    value.as_bool()
}

/// `Value::as_u64`: the number if `value` is a non-negative integer that fits
/// `u64`.
#[verifier::external_body]
pub(crate) fn unsigned(value: &Value) -> (r: Option<u64>)
    ensures
        r == json_of(*value).unsigned(),
{
    value.as_u64()
}

/// `Value::as_str`: a copy of the characters if `value` is a string.
#[verifier::external_body]
pub(crate) fn string(value: &Value) -> (r: Option<String>)
    ensures
        match r {
            Some(s) => json_of(*value).string() == Some(s@),
            None => json_of(*value).string() is None,
        },
{
    value.as_str().map(String::from)
}

/// `Value::as_number` and `Number`'s `Display`: the numeral if `value` is a
/// number.
#[verifier::external_body]
pub(crate) fn numeral(value: &Value) -> (r: Option<String>)
    ensures
        match r {
            Some(s) => json_of(*value).numeral() == Some(s@),
            None => json_of(*value).numeral() is None,
        },
{
    value.as_number().map(|number| number.to_string())
}

/// `Value::clone`: a second value that holds the same document.
#[verifier::external_body]
pub(crate) fn duplicate(value: &Value) -> (r: Value)
    ensures
        json_of(r) == json_of(*value),
{
    value.clone()
}

} // verus!
