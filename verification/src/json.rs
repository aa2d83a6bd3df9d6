//! The JSON values that pass through the proxy, and the calls into
//! `serde_json` that read, parse and print them.
//!
//! A `serde_json::Value` is opaque to the verifier. What the proxy reads of
//! one is given by two uninterpreted functions, [`json_items`] and
//! [`json_member`]; everything in this file is believed, not proved.

use vstd::prelude::*;

verus! {

/// `serde_json::Value`, carried through as an opaque value.
#[verifier::external_type_specification]
#[verifier::external_body]
pub struct ExValue(serde_json::Value);

/// `serde_json::Error`, of which nothing is read.
#[verifier::external_type_specification]
#[verifier::external_body]
pub struct ExJsonError(serde_json::Error);

/// The elements of `v`, in order, where `v` is a JSON array; `None` for any
/// other kind of value.
pub uninterp spec fn json_items(v: serde_json::Value) -> Option<Seq<serde_json::Value>>;

/// The value stored under `key` in `v`, where `v` is a JSON object that has
/// such a key; `None` otherwise.
pub uninterp spec fn json_member(v: serde_json::Value, key: Seq<char>) -> Option<
    serde_json::Value,
>;

/// The value that the bytes spell as one complete JSON text, `None` where they
/// spell none.
pub uninterp spec fn json_parsed(bytes: Seq<u8>) -> Option<serde_json::Value>;

/// The compact JSON text of an array of strings, `None` where the encoder
/// gives it up.
pub uninterp spec fn json_text_list(texts: Seq<Seq<char>>) -> Option<Seq<char>>;

/// `serde_json::Value::as_array`: a borrowed view of the elements when the
/// value is an array, nothing for every other variant.
#[verifier::external_body]
pub(crate) fn as_array(v: &serde_json::Value) -> (r: Option<&Vec<serde_json::Value>>)
    ensures
        match r {
            Some(items) => json_items(*v) == Some(items@),
            None => json_items(*v) is None,
        },
{
    v.as_array()
}

/// `serde_json::Value::get` with a string index: the member stored under
/// `key` when the value is an object holding that key, nothing otherwise.
#[verifier::external_body]
pub(crate) fn member<'a>(v: &'a serde_json::Value, key: &str) -> (r: Option<&'a serde_json::Value>)
    ensures
        match r {
            Some(found) => json_member(*v, key@) == Some(*found),
            None => json_member(*v, key@) is None,
        },
{
    v.get(key)
}

/// `serde_json::from_slice` at type `Value`: succeeds exactly on the inputs
/// that are one JSON text, and the value depends on the bytes alone.
#[verifier::external_body]
pub(crate) fn parse(bytes: &[u8]) -> (r: Result<serde_json::Value, serde_json::Error>)
    ensures
        match r {
            Ok(v) => json_parsed(bytes@) == Some(v),
            Err(_) => json_parsed(bytes@) is None,
        },
{
    serde_json::from_slice::<serde_json::Value>(bytes)
}

/// `serde_json::to_string` on a list of strings: the text depends on the
/// strings alone.
#[verifier::external_body]
pub(crate) fn print_text_list(texts: &Vec<String>) -> (r: Result<String, serde_json::Error>)
    ensures
        match r {
            Ok(text) => json_text_list(texts.deep_view()) == Some(text@),
            Err(_) => json_text_list(texts.deep_view()) is None,
        },
{
    serde_json::to_string(texts)
}

/// The derived `Clone` of `serde_json::Value`: the copy is the same value.
pub assume_specification[ <serde_json::Value as Clone>::clone ](v: &serde_json::Value) -> (r:
    serde_json::Value)
    ensures
        r == *v,
;

} // verus!
