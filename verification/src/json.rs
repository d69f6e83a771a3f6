//! What the client reads out of a JSON response body.
//!
//! Parsing is left to `serde_json`. The two functions here hand a body to it
//! and give back plain values; what its parser makes of a body is named, not
//! restated.

use crate::text::{text_of, texts};
use vstd::prelude::*;

verus! {

/// The error that `serde_json` reports for a body it cannot decode.
#[verifier::external_type_specification]
#[verifier::external_body]
pub struct ExJsonError(serde_json::Error);

/// What `serde_json` finds under `name` in `body`: `None` where `body` is no
/// JSON document, `Some(None)` where it is one without a string under `name`
/// at its top level, and otherwise that string.
pub uninterp spec fn json_text_member(body: Seq<u8>, name: Seq<char>) -> Option<Option<Seq<char>>>;

/// The strings of `body` where `serde_json` decodes it as an array of
/// strings, in the array's order; `None` where it does not.
pub uninterp spec fn json_names(body: Seq<u8>) -> Option<Seq<Seq<char>>>;

/// Calls `serde_json::from_slice` for a `Value`, then `Value::get` with
/// `name` and `Value::as_str` on what it finds. The outcome depends on the
/// bytes and the name alone. The contract names it: an error stands for
/// `None`, a document without such a string for `Some(None)`.
#[verifier::external_body]
pub(crate) fn text_member(body: &[u8], name: &str) -> (found: Result<
    Option<String>,
    serde_json::Error,
>)
    ensures
        match found {
            Ok(member) => json_text_member(body@, name@) == Some(text_of(member)),
            Err(_) => json_text_member(body@, name@) is None,
        },
{
    match serde_json::from_slice::<serde_json::Value>(body) {
        Ok(document) => match document.get(name) {
            Some(member) => match member.as_str() {
                Some(text) => Ok(Some(text.to_string())),
                None => Ok(None),
            },
            None => Ok(None),
        },
        Err(error) => Err(error),
    }
}

/// Calls `serde_json::from_slice` for a `Vec<String>`. The outcome depends on
/// the bytes alone. The contract names it: an error stands for `None`.
#[verifier::external_body]
pub(crate) fn names(body: &[u8]) -> (found: Result<Vec<String>, serde_json::Error>)
    ensures
        match found {
            Ok(names) => json_names(body@) == Some(texts(names@)),
            Err(_) => json_names(body@) is None,
        },
{
    serde_json::from_slice::<Vec<String>>(body)
}

/// Keeps what was decoded and forgets why decoding failed.
pub(crate) fn decoded<T>(found: Result<T, serde_json::Error>) -> (value: Option<T>)
    ensures
        value == match found {
            Ok(value) => Some(value),
            Err(_) => None::<T>,
        },
{
    match found {
        Ok(value) => Some(value),
        Err(_) => None,
    }
}

} // verus!
