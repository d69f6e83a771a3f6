//! HTTP status codes as the client reads and prints them.

use crate::text::{decimal, decimal_text, text_of};
use vstd::prelude::*;

verus! {

/// Whether `code` lies in the success range of HTTP, 200 up to and including 299.
pub open spec fn success_range(code: u16) -> bool {
    200 <= code < 300
}

/// The standard reason phrase that `StatusCode::canonical_reason` gives for
/// `code`; `None` where `code` is no status code or has no standard phrase.
pub uninterp spec fn reason_phrase(code: u16) -> Option<Seq<char>>;

/// How a status is printed: the code, a space, and the standard reason
/// phrase or a placeholder for a code without one.
pub open spec fn status_text(code: u16) -> Seq<char> {
    decimal(code as nat) + " "@ + match reason_phrase(code) {
        Some(phrase) => phrase,
        None => "<unknown status code>"@,
    }
}

/// Calls `reqwest::StatusCode::from_u16` and, on the status it gives,
/// `StatusCode::canonical_reason`. The phrase is looked up in a fixed table
/// by the code alone; the contract names it and claims nothing else of it.
/// A code outside 100..=999 is no status and has no phrase.
#[verifier::external_body]
pub(crate) fn canonical_reason(code: u16) -> (phrase: Option<String>)
    ensures
        text_of(phrase) == reason_phrase(code),
{
    match reqwest::StatusCode::from_u16(code) {
        Ok(status) => match status.canonical_reason() {
            Some(phrase) => Some(phrase.to_string()),
            None => None,
        },
        Err(_) => None,
    }
}

/// Tells whether a response with status `code` counts as a success.
pub fn is_success(code: u16) -> (ok: bool)
    ensures
        ok == success_range(code),
{
    200 <= code && code < 300
}

/// Prints a status given its reason phrase, if it has one.
pub fn status_with_reason(code: u16, phrase: Option<String>) -> (text: String)
    ensures
        text@ == decimal(code as nat) + " "@ + match text_of(phrase) {
            Some(phrase) => phrase,
            None => "<unknown status code>"@,
        },
{
    let mut text = decimal_text(code as u64);
    text.append(" ");
    match phrase {
        Some(phrase) => text.append(phrase.as_str()),
        None => text.append("<unknown status code>"),
    }
    text
}

/// Prints a status as `500 Internal Server Error`.
pub fn status_line(code: u16) -> (text: String)
    ensures
        text@ == status_text(code),
{
    status_with_reason(code, canonical_reason(code))
}

} // verus!
