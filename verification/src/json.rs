//! The JSON reader that the webhook parser stands on.
//!
//! Documents are read by `serde_json`. Verified code carries the values of
//! that crate and asks them for members, strings and numbers; it never looks
//! inside. What a value holds is named here by two maps from paths to plain
//! values, and each call into the crate states over these maps what the
//! library takes on trust from it. Nothing in this module is proved.

use vstd::prelude::*;

verus! {

/// A JSON value as `serde_json` holds it.
#[verifier::external_type_specification]
#[verifier::external_body]
pub struct ExValue(serde_json::Value);

/// The error that `serde_json` reports for text that is no JSON document.
#[verifier::external_type_specification]
#[verifier::external_body]
pub struct ExError(serde_json::Error);

/// The strings in `value`, each under its path: the keys of the objects that
/// lead from `value` to the string. A value that is itself a string holds it
/// under the empty path; nothing lies behind an array.
pub uninterp spec fn json_strings(value: serde_json::Value) -> Map<Seq<Seq<char>>, Seq<char>>;

/// The integers from zero to `u64::MAX` in `value`, each under its path, in
/// the same way as `json_strings`.
pub uninterp spec fn json_numbers(value: serde_json::Value) -> Map<Seq<Seq<char>>, u64>;

/// The strings and numbers of the document that `text` is; `None` where
/// `text` is no JSON document.
pub uninterp spec fn json_document(text: Seq<char>) -> Option<
    (Map<Seq<Seq<char>>, Seq<char>>, Map<Seq<Seq<char>>, u64>),
>;

/// The part of `contents` behind `prefix`: what lies under a path here lies
/// in `contents` under `prefix` followed by that path.
pub(crate) open spec fn below<V>(
    contents: Map<Seq<Seq<char>>, V>,
    prefix: Seq<Seq<char>>,
) -> Map<Seq<Seq<char>>, V> {
    Map::new(
        |path: Seq<Seq<char>>| contents.contains_key(prefix + path),
        |path: Seq<Seq<char>>| contents[prefix + path],
    )
}

/// The strings in a value that may be absent; an absent value holds none.
pub(crate) open spec fn strings_in(found: Option<&serde_json::Value>) -> Map<
    Seq<Seq<char>>,
    Seq<char>,
> {
    match found {
        Some(value) => json_strings(*value),
        None => Map::empty(),
    }
}

/// The numbers in a value that may be absent; an absent value holds none.
pub(crate) open spec fn numbers_in(found: Option<&serde_json::Value>) -> Map<Seq<Seq<char>>, u64> {
    match found {
        Some(value) => json_numbers(*value),
        None => Map::empty(),
    }
}

/// Calls `serde_json::from_str` for a `Value`.
///
/// Trusted: the call takes the whole of `text` as one JSON document, and its
/// outcome depends on `text` alone. It is `Ok` exactly where `text` is a
/// document, with a value that holds the strings and numbers of the document.
#[verifier::external_body]
pub(crate) fn read_document(text: &str) -> (document: Result<
    serde_json::Value,
    serde_json::Error,
>)
    ensures
        document matches Ok(value) ==> json_document(text@) == Some(
            (json_strings(value), json_numbers(value)),
        ),
        document is Err ==> json_document(text@) is None,
{
    serde_json::from_str::<serde_json::Value>(text)
}

/// Calls `serde_json::Value::get` with a string key.
///
/// Trusted: where `value` is an object with a member under `key`, the result
/// is that member, and it holds what `value` holds behind `key`. Otherwise
/// the result is `None`, and `value` holds nothing behind `key`.
#[verifier::external_body]
pub(crate) fn member<'a>(value: &'a serde_json::Value, key: &str) -> (found: Option<
    &'a serde_json::Value,
>)
    ensures
        strings_in(found) == below(json_strings(*value), seq![key@]),
        numbers_in(found) == below(json_numbers(*value), seq![key@]),
{
    value.get(key)
}

/// Calls `serde_json::Value::as_str`.
///
/// Trusted: the result is the text of `value` where `value` is a JSON string,
/// and `None` for every other kind of value.
#[verifier::external_body]
pub(crate) fn as_text<'a>(value: &'a serde_json::Value) -> (found: Option<&'a str>)
    ensures
        found.deep_view() == json_strings(*value).get(Seq::empty()),
{
    value.as_str()
}

/// Calls `serde_json::Value::as_u64`.
///
/// Trusted: the result is the number of `value` where `value` is an integer
/// from zero to `u64::MAX`, and `None` for every other value.
#[verifier::external_body]
pub(crate) fn as_number(value: &serde_json::Value) -> (found: Option<u64>)
    ensures
        found == json_numbers(*value).get(Seq::empty()),
{
    value.as_u64()
}

/// Calls `std::str::from_utf8`.
///
/// Trusted: the result is `Some` exactly for bytes that are valid UTF-8, and
/// then it is a string slice over these very bytes.
#[verifier::external_body]
pub(crate) fn as_utf8<'a>(bytes: &'a [u8]) -> (found: Option<&'a str>)
    ensures
        found is Some <==> vstd::utf8::valid_utf8(bytes@),
        found matches Some(text) ==> vstd::utf8::encode_utf8(text@) == bytes@,
{
    std::str::from_utf8(bytes).ok()
}

} // verus!
