//! What an operation's response amounts to.
//!
//! A response in the success range is decoded as its operation expects; any
//! other status is a failure that carries the status and the body as it came.

use crate::command::Operation;
use crate::json::{decoded, json_names, json_text_member, names, text_member};
use crate::text::{text_of, texts};
use vstd::prelude::*;

verus! {

/// What a successful response carries.
#[derive(Clone, Debug, PartialEq, Eq)]
pub enum Payload {
    /// Nothing: the status alone reports the success.
    Unit,
    /// The bytes of a downloaded file.
    Content { bytes: Vec<u8> },
    /// The file names of a listing or a search, in the service's order.
    Names { names: Vec<String> },
    /// A freshly issued key.
    Key { key: String },
    /// The service's verdict on a key.
    Message { message: String },
}

/// How a successful response fell short of the shape its operation expects.
#[derive(Clone, Copy, Debug, PartialEq, Eq, Structural)]
pub enum Mismatch {
    /// The body could not be decoded at all.
    Malformed,
    /// The body was decoded and lacks the member that was looked for.
    FieldMissing,
}

/// The result of one operation.
#[derive(Clone, Debug, PartialEq, Eq)]
pub enum OperationResult {
    Success { payload: Payload },
    /// A status outside the success range, with the body where it is not empty.
    Failure { status: u16, body: Option<String> },
    /// The request could not be sent, or its response not received.
    TransportError { cause: String },
    /// A status in the success range with a body of another shape.
    DecodeError { mismatch: Mismatch },
}

/// The mathematical value of a [`Payload`].
pub enum PayloadView {
    Unit,
    Content { bytes: Seq<u8> },
    Names { names: Seq<Seq<char>> },
    Key { key: Seq<char> },
    Message { message: Seq<char> },
}

/// The mathematical value of an [`OperationResult`].
pub enum OperationResultView {
    Success { payload: PayloadView },
    Failure { status: u16, body: Option<Seq<char>> },
    TransportError { cause: Seq<char> },
    DecodeError { mismatch: Mismatch },
}

impl View for Payload {
    type V = PayloadView;

    open spec fn view(&self) -> PayloadView {
        match *self {
            Payload::Unit => PayloadView::Unit,
            Payload::Content { bytes } => PayloadView::Content { bytes: bytes@ },
            Payload::Names { names } => PayloadView::Names { names: texts(names@) },
            Payload::Key { key } => PayloadView::Key { key: key@ },
            Payload::Message { message } => PayloadView::Message { message: message@ },
        }
    }
}

impl View for OperationResult {
    type V = OperationResultView;

    open spec fn view(&self) -> OperationResultView {
        match *self {
            OperationResult::Success { payload } => OperationResultView::Success {
                payload: payload@,
            },
            OperationResult::Failure { status, body } => OperationResultView::Failure {
                status,
                body: text_of(body),
            },
            OperationResult::TransportError { cause } => OperationResultView::TransportError {
                cause: cause@,
            },
            OperationResult::DecodeError { mismatch } => OperationResultView::DecodeError {
                mismatch,
            },
        }
    }
}

/// The failure that a status outside the success range amounts to. `text` is
/// the response body, or `None` where it could not be read; an empty body
/// counts as none.
pub open spec fn failure_model(status: u16, text: Option<Seq<char>>) -> OperationResultView {
    OperationResultView::Failure {
        status,
        body: match text {
            Some(text) => if text.len() > 0 {
                Some(text)
            } else {
                None
            },
            None => None,
        },
    }
}

/// The result of key generation, given what was found under `key` in the body.
pub open spec fn key_model(found: Option<Option<Seq<char>>>) -> OperationResultView {
    match found {
        None => OperationResultView::DecodeError { mismatch: Mismatch::Malformed },
        Some(None) => OperationResultView::DecodeError { mismatch: Mismatch::FieldMissing },
        Some(Some(key)) => OperationResultView::Success { payload: PayloadView::Key { key } },
    }
}

/// The result of a key check, given what was found under `message` in the body.
pub open spec fn message_model(found: Option<Option<Seq<char>>>) -> OperationResultView {
    match found {
        None => OperationResultView::DecodeError { mismatch: Mismatch::Malformed },
        Some(None) => OperationResultView::DecodeError { mismatch: Mismatch::FieldMissing },
        Some(Some(message)) => OperationResultView::Success {
            payload: PayloadView::Message { message },
        },
    }
}

/// The result of a listing or a search, given the names decoded from the body.
pub open spec fn names_model(found: Option<Seq<Seq<char>>>) -> OperationResultView {
    match found {
        None => OperationResultView::DecodeError { mismatch: Mismatch::Malformed },
        Some(names) => OperationResultView::Success { payload: PayloadView::Names { names } },
    }
}

/// The result of `operation` on a response in the success range with body
/// `body`.
pub open spec fn success_model(operation: Operation, body: Seq<u8>) -> OperationResultView {
    match operation {
        Operation::GenerateKey => key_model(json_text_member(body, "key"@)),
        Operation::CheckKey => message_model(json_text_member(body, "message"@)),
        Operation::Upload | Operation::Delete => OperationResultView::Success {
            payload: PayloadView::Unit,
        },
        Operation::Download => OperationResultView::Success {
            payload: PayloadView::Content { bytes: body },
        },
        Operation::Search | Operation::List => names_model(json_names(body)),
    }
}

/// The result of `operation` on a response in the success range whose body
/// could not be read for `cause`. The two key operations report a body they
/// cannot decode; the others report the transport.
pub open spec fn unread_model(operation: Operation, cause: Seq<char>) -> OperationResultView {
    match operation {
        Operation::GenerateKey | Operation::CheckKey => OperationResultView::DecodeError {
            mismatch: Mismatch::Malformed,
        },
        _ => OperationResultView::TransportError { cause },
    }
}

/// Reads a response outside the success range: the failure keeps the status
/// and the body text, unless that is empty or could not be read.
pub fn failure_of(status: u16, text: Option<String>) -> (result: OperationResult)
    ensures
        result@ == failure_model(status, text_of(text)),
{
    let body = match text {
        Some(text) => if text.as_str().unicode_len() > 0 {
            Some(text)
        } else {
            None
        },
        None => None,
    };
    OperationResult::Failure { status, body }
}

/// Reads the response to key generation from what was found under `key`:
/// `None` for a body that is no JSON, `Some(None)` for one without the key.
pub fn key_result(found: Option<Option<String>>) -> (result: OperationResult)
    ensures
        result@ == key_model(
            match found {
                Some(member) => Some(text_of(member)),
                None => None,
            },
        ),
{
    match found {
        None => OperationResult::DecodeError { mismatch: Mismatch::Malformed },
        Some(None) => OperationResult::DecodeError { mismatch: Mismatch::FieldMissing },
        Some(Some(key)) => OperationResult::Success { payload: Payload::Key { key } },
    }
}

/// Reads the response to a key check from what was found under `message`:
/// `None` for a body that is no JSON, `Some(None)` for one without a message.
pub fn message_result(found: Option<Option<String>>) -> (result: OperationResult)
    ensures
        result@ == message_model(
            match found {
                Some(member) => Some(text_of(member)),
                None => None,
            },
        ),
{
    match found {
        None => OperationResult::DecodeError { mismatch: Mismatch::Malformed },
        Some(None) => OperationResult::DecodeError { mismatch: Mismatch::FieldMissing },
        Some(Some(message)) => OperationResult::Success { payload: Payload::Message { message } },
    }
}

/// Reads the response to a listing or a search from the names decoded from
/// it: `None` for a body that is no array of strings.
pub fn names_result(found: Option<Vec<String>>) -> (result: OperationResult)
    ensures
        result@ == names_model(
            match found {
                Some(names) => Some(texts(names@)),
                None => None,
            },
        ),
{
    match found {
        None => OperationResult::DecodeError { mismatch: Mismatch::Malformed },
        Some(names) => OperationResult::Success { payload: Payload::Names { names } },
    }
}

/// Reads a response in the success range as `operation` expects it: a key or
/// a message out of a JSON object, an array of names, the bytes of a file,
/// or nothing at all.
pub fn success_of(operation: Operation, body: Vec<u8>) -> (result: OperationResult)
    ensures
        result@ == success_model(operation, body@),
{
    match operation {
        Operation::GenerateKey => key_result(decoded(text_member(body.as_slice(), "key"))),
        Operation::CheckKey => message_result(decoded(text_member(body.as_slice(), "message"))),
        Operation::Upload | Operation::Delete => OperationResult::Success {
            payload: Payload::Unit,
        },
        Operation::Download => OperationResult::Success { payload: Payload::Content { bytes: body } },
        Operation::Search | Operation::List => names_result(decoded(names(body.as_slice()))),
    }
}

/// Reads a response in the success range whose body could not be read.
pub fn unread(operation: Operation, cause: String) -> (result: OperationResult)
    ensures
        result@ == unread_model(operation, cause@),
{
    match operation {
        Operation::GenerateKey | Operation::CheckKey => OperationResult::DecodeError {
            mismatch: Mismatch::Malformed,
        },
        _ => OperationResult::TransportError { cause },
    }
}

} // verus!
