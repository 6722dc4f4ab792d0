//! JSON documents, read by `serde_json`.
//!
//! A document of `serde_json` is opaque here. What it holds is a value of
//! the type `Json` below, known through two names of which nothing is
//! proved: one for the text that is read, one for the document that was
//! read. The contracts of the calls into `serde_json` are stated over them
//! and taken on trust.

use vstd::prelude::*;

verus! {

#[verifier::external_type_specification]
#[verifier::external_body]
pub struct ExJsonValue(serde_json::Value);

#[verifier::external_type_specification]
#[verifier::external_body]
pub struct ExJsonError(serde_json::Error);

/// What a JSON document holds.
pub enum Json {
    Null,
    Bool(bool),
    /// A number that `serde_json` keeps as an integer: one written
    /// without fraction and exponent that fits in 64 bits.
    Integer(int),
    /// Any other number.
    Fraction,
    Text(Seq<char>),
    Array(Seq<Json>),
    Object(Map<Seq<char>, Json>),
}

/// What a document of `serde_json` holds.
pub uninterp spec fn json_view(value: serde_json::Value) -> Json;

/// What `serde_json::from_str` reads from `text`; `None` where it
/// reports an error.
pub uninterp spec fn json_document(text: Seq<char>) -> Option<Json>;

impl Json {
    /// The member of that name, when this is an object that has one.
    pub open spec fn member(self, key: Seq<char>) -> Option<Json> {
        match self {
            Json::Object(members) => if members.contains_key(key) {
                Some(members[key])
            } else {
                None
            },
            _ => None,
        }
    }

    /// The characters, when this is a string.
    pub open spec fn text(self) -> Option<Seq<char>> {
        match self {
            Json::Text(text) => Some(text),
            _ => None,
        }
    }

    /// The number, when this is an integer that fits in 64 signed bits.
    pub open spec fn integer(self) -> Option<i64> {
        match self {
            Json::Integer(number) => if i64::MIN <= number <= i64::MAX {
                Some(number as i64)
            } else {
                None
            },
            _ => None,
        }
    }

    /// The string that is the member `key`.
    pub open spec fn text_member(self, key: Seq<char>) -> Option<Seq<char>> {
        match self.member(key) {
            Some(member) => member.text(),
            None => None,
        }
    }

    /// The integer that is the member `key`.
    pub open spec fn integer_member(self, key: Seq<char>) -> Option<i64> {
        match self.member(key) {
            Some(member) => member.integer(),
            None => None,
        }
    }
}

/// Calls `serde_json::from_str` for a `serde_json::Value`. Trusted: what
/// is read is a function of the text alone, a document on success and an
/// error where the text is not one JSON document.
#[verifier::external_body]
pub(crate) fn read_document(text: &str) -> (r: Result<serde_json::Value, serde_json::Error>)
    ensures
        match r {
            Ok(document) => json_document(text@) == Some(json_view(document)),
            Err(_) => json_document(text@) is None,
        },
{
    serde_json::from_str::<serde_json::Value>(text)
}

/// Calls `serde_json::Value::get` with a string key. Trusted: it finds
/// the member of that name in an object and nothing in any other value.
#[verifier::external_body]
pub(crate) fn member<'a>(value: &'a serde_json::Value, key: &str) -> (r: Option<
    &'a serde_json::Value,
>)
    ensures
        match r {
            Some(found) => json_view(*value).member(key@) == Some(json_view(*found)),
            None => json_view(*value).member(key@) is None,
        },
{
    value.get(key)
}

/// Calls `serde_json::Value::as_str` and copies the string. Trusted: it
/// gives the characters of a string and nothing for any other value.
#[verifier::external_body]
pub(crate) fn text_of(value: &serde_json::Value) -> (r: Option<String>)
    ensures
        match r {
            Some(text) => json_view(*value).text() == Some(text@),
            None => json_view(*value).text() is None,
        },
{
    value.as_str().map(str::to_owned)
}

/// Calls `serde_json::Value::as_i64`. Trusted: it gives an integer that
/// fits in 64 signed bits and nothing for any other value.
#[verifier::external_body]
pub(crate) fn integer_of(value: &serde_json::Value) -> (r: Option<i64>)
    ensures
        r == json_view(*value).integer(),
{
    value.as_i64()
}

/// The string that is the member `key` of `value`, if there is one.
pub fn text_member(value: &serde_json::Value, key: &str) -> (r: Option<String>)
    ensures
        match r {
            Some(text) => json_view(*value).text_member(key@) == Some(text@),
            None => json_view(*value).text_member(key@) is None,
        },
{
    match member(value, key) {
        Some(found) => text_of(found),
        None => None,
    }
}

/// The integer that is the member `key` of `value`, if there is one.
pub fn integer_member(value: &serde_json::Value, key: &str) -> (r: Option<i64>)
    ensures
        r == json_view(*value).integer_member(key@),
{
    match member(value, key) {
        Some(found) => integer_of(found),
        None => None,
    }
}

} // verus!
