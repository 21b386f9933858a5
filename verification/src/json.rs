//! JSON documents, as `serde_json` reads them.
//!
//! A parsed document is a `serde_json::Value`, which the verifier cannot look
//! into. What the library needs from one is given a name here, and each name
//! is tied to the `serde_json` function that computes it.

use crate::text::optional_text;
use vstd::prelude::*;

verus! {

/// `serde_json::Value`, a parsed JSON document or a part of one. It is only
/// made known here; nothing is said of what it holds.
#[verifier::external_type_specification]
#[verifier::external_body]
pub struct ExJsonValue(serde_json::Value);

/// `serde_json::Error`, why bytes are no JSON document. It is only made known
/// here.
#[verifier::external_type_specification]
#[verifier::external_body]
pub struct ExJsonError(serde_json::Error);

/// The document that `serde_json::from_slice` reads from `bytes`, if it reads
/// one.
pub uninterp spec fn json_document(bytes: Seq<u8>) -> Option<serde_json::Value>;

/// The member named `key` that `serde_json::Value::get` finds in `value`.
pub uninterp spec fn json_member(value: serde_json::Value, key: Seq<char>) -> Option<
    serde_json::Value,
>;

/// The text that `serde_json::Value::as_str` finds in `value`.
pub uninterp spec fn json_text(value: serde_json::Value) -> Option<Seq<char>>;

/// The number that `serde_json::Value::as_u64` finds in `value`.
pub uninterp spec fn json_unsigned(value: serde_json::Value) -> Option<u64>;

/// The truth value that `serde_json::Value::as_bool` finds in `value`.
pub uninterp spec fn json_bool(value: serde_json::Value) -> Option<bool>;

/// What `serde_json::Value::is_null` says of `value`.
pub uninterp spec fn json_is_null(value: serde_json::Value) -> bool;

/// Calls `serde_json::from_slice` for a `serde_json::Value`. It returns the
/// document that the bytes spell, or an error when they are not one JSON text.
/// The contract only names the outcome: the same bytes give the same document.
#[verifier::external_body]
pub(crate) fn parse_json(bytes: &[u8]) -> (parsed: Result<serde_json::Value, serde_json::Error>)
    ensures
        parsed matches Ok(document) ==> json_document(bytes@) == Some(document),
        parsed is Err ==> json_document(bytes@) is None,
{
    serde_json::from_slice::<serde_json::Value>(bytes)
}

/// Calls `serde_json::Value::get` with a string index. It returns the member
/// of that name when `value` is an object that has one, and nothing otherwise.
/// The contract only names the outcome.
#[verifier::external_body]
pub(crate) fn member<'a>(value: &'a serde_json::Value, key: &str) -> (found: Option<
    &'a serde_json::Value,
>)
    ensures
        found matches Some(inner) ==> json_member(*value, key@) == Some(*inner),
        found is None ==> json_member(*value, key@) is None,
{
    value.get(key)
}

/// `serde_json::Value::as_str` returns the text of a JSON string and nothing
/// for any other value.
pub assume_specification[ serde_json::Value::as_str ](value: &serde_json::Value) -> (text: Option<
    &str,
>)
    ensures
        text matches Some(inner) ==> json_text(*value) == Some(inner@),
        text is None ==> json_text(*value) is None,
;

/// `serde_json::Value::as_u64` returns the number when `value` is a
/// non-negative integer that fits 64 bits, and nothing for any other value.
pub assume_specification[ serde_json::Value::as_u64 ](value: &serde_json::Value) -> (number:
    Option<u64>)
    ensures
        number == json_unsigned(*value),
;

/// `serde_json::Value::as_bool` returns the truth value of `true` or `false`
/// and nothing for any other value.
pub assume_specification[ serde_json::Value::as_bool ](value: &serde_json::Value) -> (flag: Option<
    bool,
>)
    ensures
        flag == json_bool(*value),
;

/// `serde_json::Value::is_null` tells whether `value` is JSON's `null`.
pub assume_specification[ serde_json::Value::is_null ](value: &serde_json::Value) -> (null: bool)
    ensures
        null == json_is_null(*value),
;

/// The text of the member `key` of `document`, when it has one that is a
/// string.
pub open spec fn text_member(document: serde_json::Value, key: Seq<char>) -> Option<Seq<char>> {
    match json_member(document, key) {
        Some(value) => json_text(value),
        None => None,
    }
}

/// The number of the member `key` of `document`, when it has one that is a
/// non-negative integer of 64 bits.
pub open spec fn unsigned_member(document: serde_json::Value, key: Seq<char>) -> Option<u64> {
    match json_member(document, key) {
        Some(value) => json_unsigned(value),
        None => None,
    }
}

/// The truth value of the member `key` of `document`, when it has one that is
/// `true` or `false`.
pub open spec fn bool_member(document: serde_json::Value, key: Seq<char>) -> Option<bool> {
    match json_member(document, key) {
        Some(value) => json_bool(value),
        None => None,
    }
}

/// A member that may be left out: `Some(None)` when `document` has no member
/// `key` or has `null` there, `Some(Some(text))` when it has a string there,
/// and `None` when it has anything else there.
pub open spec fn optional_text_member(document: serde_json::Value, key: Seq<char>) -> Option<
    Option<Seq<char>>,
> {
    match json_member(document, key) {
        None => Some(None),
        Some(value) => if json_is_null(value) {
            Some(None)
        } else {
            match json_text(value) {
                Some(text) => Some(Some(text)),
                None => None,
            }
        },
    }
}

/// Reads the string member `key` of `document`.
pub fn read_text(document: &serde_json::Value, key: &str) -> (text: Option<String>)
    ensures
        optional_text(text) == text_member(*document, key@),
{
    match member(document, key) {
        Some(value) => match value.as_str() {
            Some(inner) => Some(inner.to_owned()),
            None => None,
        },
        None => None,
    }
}

/// Reads the non-negative integer member `key` of `document`.
pub fn read_unsigned(document: &serde_json::Value, key: &str) -> (number: Option<u64>)
    ensures
        number == unsigned_member(*document, key@),
{
    match member(document, key) {
        Some(value) => value.as_u64(),
        None => None,
    }
}

/// Reads the boolean member `key` of `document`.
pub fn read_bool(document: &serde_json::Value, key: &str) -> (flag: Option<bool>)
    ensures
        flag == bool_member(*document, key@),
{
    match member(document, key) {
        Some(value) => value.as_bool(),
        None => None,
    }
}

/// Reads the string member `key` of `document` that may be left out or be
/// `null`. The outer `None` says that the member holds something else.
pub fn read_optional_text(document: &serde_json::Value, key: &str) -> (text: Option<
    Option<String>,
>)
    ensures
        match text {
            Some(inner) => optional_text_member(*document, key@) == Some(optional_text(inner)),
            None => optional_text_member(*document, key@) is None,
        },
{
    match member(document, key) {
        None => Some(None),
        Some(value) => {
            if value.is_null() {
                Some(None)
            } else {
                match value.as_str() {
                    Some(inner) => Some(Some(inner.to_owned())),
                    None => None,
                }
            }
        },
    }
}

} // verus!
