//! The one request that each operation sends.
//!
//! Every request goes to a path under the service's base URL. The operations
//! that act on stored files carry the credential in the `API-Key` header;
//! key generation and the key check carry none.

use crate::command::{Command, CommandView};
use crate::text::text_of;
use vstd::prelude::*;

verus! {

/// The HTTP method of a request.
#[derive(Clone, Copy, Debug, PartialEq, Eq, Structural)]
pub enum Method {
    Get,
    Post,
    Delete,
}

/// The single part of an upload's multipart form.
#[derive(Clone, Debug, PartialEq, Eq)]
pub struct FilePart {
    /// The name of the form field.
    pub field: String,
    /// The file name that the part announces.
    pub file_name: String,
    /// The bytes of the file.
    pub content: Vec<u8>,
}

/// A request, as plain values for the transport to send.
#[derive(Clone, Debug, PartialEq, Eq)]
pub struct Request {
    pub method: Method,
    pub url: String,
    /// The credential for the `API-Key` header, where the operation needs one.
    pub api_key: Option<String>,
    /// The multipart form of an upload.
    pub file: Option<FilePart>,
}

/// The mathematical value of a [`FilePart`].
pub struct FilePartView {
    pub field: Seq<char>,
    pub file_name: Seq<char>,
    pub content: Seq<u8>,
}

/// The mathematical value of a [`Request`].
pub struct RequestView {
    pub method: Method,
    pub url: Seq<char>,
    pub api_key: Option<Seq<char>>,
    pub file: Option<FilePartView>,
}

impl View for FilePart {
    type V = FilePartView;

    open spec fn view(&self) -> FilePartView {
        FilePartView { field: self.field@, file_name: self.file_name@, content: self.content@ }
    }
}

impl View for Request {
    type V = RequestView;

    open spec fn view(&self) -> RequestView {
        RequestView {
            method: self.method,
            url: self.url@,
            api_key: text_of(self.api_key),
            file: match self.file {
                Some(part) => Some(part@),
                None => None,
            },
        }
    }
}

/// The request that asks for a new key.
pub open spec fn generate_key_model(base_url: Seq<char>) -> RequestView {
    RequestView { method: Method::Post, url: base_url + "/key/new"@, api_key: None, file: None }
}

/// The request that asks whether `key` is valid.
pub open spec fn check_key_model(base_url: Seq<char>, key: Seq<char>) -> RequestView {
    RequestView {
        method: Method::Get,
        url: base_url + "/key/check/"@ + key,
        api_key: None,
        file: None,
    }
}

/// The request that stores `content` under `target_name`.
pub open spec fn upload_model(
    base_url: Seq<char>,
    api_key: Seq<char>,
    target_name: Seq<char>,
    content: Seq<u8>,
) -> RequestView {
    RequestView {
        method: Method::Post,
        url: base_url + "/"@ + target_name,
        api_key: Some(api_key),
        file: Some(FilePartView { field: "file"@, file_name: target_name, content }),
    }
}

/// The request that fetches the file `file_name`.
pub open spec fn download_model(
    base_url: Seq<char>,
    api_key: Seq<char>,
    file_name: Seq<char>,
) -> RequestView {
    RequestView {
        method: Method::Get,
        url: base_url + "/"@ + file_name,
        api_key: Some(api_key),
        file: None,
    }
}

/// The request that searches the stored files for `query`.
pub open spec fn search_model(
    base_url: Seq<char>,
    api_key: Seq<char>,
    query: Seq<char>,
) -> RequestView {
    RequestView {
        method: Method::Get,
        url: base_url + "/search/"@ + query,
        api_key: Some(api_key),
        file: None,
    }
}

/// The request that removes the file `file_name`.
pub open spec fn delete_model(
    base_url: Seq<char>,
    api_key: Seq<char>,
    file_name: Seq<char>,
) -> RequestView {
    RequestView {
        method: Method::Delete,
        url: base_url + "/"@ + file_name,
        api_key: Some(api_key),
        file: None,
    }
}

/// The request that lists the stored files.
pub open spec fn list_model(base_url: Seq<char>, api_key: Seq<char>) -> RequestView {
    RequestView {
        method: Method::Get,
        url: base_url + "/list"@,
        api_key: Some(api_key),
        file: None,
    }
}

/// Whether `command` needs the stored credential before its request can be
/// built: every operation on stored files, and a key check that names no key.
pub open spec fn needs_credential(command: CommandView) -> bool {
    match command {
        CommandView::GenerateKey => false,
        CommandView::CheckKey { key } => key is None,
        CommandView::Invalid { .. } => false,
        _ => true,
    }
}

/// Whether the request of `command` carries the credential in its header.
pub open spec fn requires_authorization(command: CommandView) -> bool {
    match command {
        CommandView::GenerateKey => false,
        CommandView::CheckKey { .. } => false,
        CommandView::Invalid { .. } => false,
        _ => true,
    }
}

/// The request of `command`. `credential` is the stored credential, used
/// where the command needs one, and `content` the bytes of the file that an
/// upload sends. An invalid command has no request.
pub open spec fn request_model(
    base_url: Seq<char>,
    command: CommandView,
    credential: Seq<char>,
    content: Seq<u8>,
) -> Option<RequestView> {
    match command {
        CommandView::GenerateKey => Some(generate_key_model(base_url)),
        CommandView::CheckKey { key } => Some(
            check_key_model(
                base_url,
                match key {
                    Some(key) => key,
                    None => credential,
                },
            ),
        ),
        CommandView::Upload { source_path, target_name } => Some(
            upload_model(base_url, credential, target_name, content),
        ),
        CommandView::Download { file_name, target_name } => Some(
            download_model(base_url, credential, file_name),
        ),
        CommandView::Search { query } => Some(search_model(base_url, credential, query)),
        CommandView::Delete { file_name } => Some(delete_model(base_url, credential, file_name)),
        CommandView::List => Some(list_model(base_url, credential)),
        CommandView::Invalid { .. } => None,
    }
}

/// How long a request may take before the transport gives it up, in
/// seconds: seven hours, since a transfer may be large.
pub const REQUEST_TIMEOUT_SECONDS: u64 = 25200;

/// The base URL of the service.
pub fn service_url() -> (url: &'static str)
    ensures
        url@ == "https://UDTool.delphigamerz.xyz"@,
{
    "https://UDTool.delphigamerz.xyz"
}

/// The name of the header that carries the credential.
pub fn api_key_header() -> (name: &'static str)
    ensures
        name@ == "API-Key"@,
{
    "API-Key"
}

/// The URL of the fixed path `path` under the base URL.
fn endpoint(base_url: &str, path: &str) -> (url: String)
    ensures
        url@ == base_url@ + path@,
{
    let mut url = base_url.to_owned();
    url.append(path);
    url
}

/// The URL of `name` below the path `path` under the base URL.
fn endpoint_of(base_url: &str, path: &str, name: &str) -> (url: String)
    ensures
        url@ == base_url@ + path@ + name@,
{
    let mut url = endpoint(base_url, path);
    url.append(name);
    url
}

/// Builds the request that asks for a new key.
pub fn generate_key(base_url: &str) -> (request: Request)
    ensures
        request@ == generate_key_model(base_url@),
{
    Request { method: Method::Post, url: endpoint(base_url, "/key/new"), api_key: None, file: None }
}

/// Builds the request that asks whether `key` is valid.
pub fn check_key(base_url: &str, key: &str) -> (request: Request)
    ensures
        request@ == check_key_model(base_url@, key@),
{
    Request {
        method: Method::Get,
        url: endpoint_of(base_url, "/key/check/", key),
        api_key: None,
        file: None,
    }
}

/// Builds the request that stores `content` under `target_name`: a multipart
/// form with the one part `file`, which holds the bytes and announces the
/// target name.
pub fn upload(base_url: &str, api_key: &str, target_name: &str, content: Vec<u8>) -> (request:
    Request)
    ensures
        request@ == upload_model(base_url@, api_key@, target_name@, content@),
{
    let part = FilePart {
        field: "file".to_owned(),
        file_name: target_name.to_owned(),
        content,
    };
    Request {
        method: Method::Post,
        url: endpoint_of(base_url, "/", target_name),
        api_key: Some(api_key.to_owned()),
        file: Some(part),
    }
}

/// Builds the request that fetches the file `file_name`.
pub fn download(base_url: &str, api_key: &str, file_name: &str) -> (request: Request)
    ensures
        request@ == download_model(base_url@, api_key@, file_name@),
{
    Request {
        method: Method::Get,
        url: endpoint_of(base_url, "/", file_name),
        api_key: Some(api_key.to_owned()),
        file: None,
    }
}

/// Builds the request that searches the stored files for `query`.
pub fn search(base_url: &str, api_key: &str, query: &str) -> (request: Request)
    ensures
        request@ == search_model(base_url@, api_key@, query@),
{
    Request {
        method: Method::Get,
        url: endpoint_of(base_url, "/search/", query),
        api_key: Some(api_key.to_owned()),
        file: None,
    }
}

/// Builds the request that removes the file `file_name`.
pub fn delete(base_url: &str, api_key: &str, file_name: &str) -> (request: Request)
    ensures
        request@ == delete_model(base_url@, api_key@, file_name@),
{
    Request {
        method: Method::Delete,
        url: endpoint_of(base_url, "/", file_name),
        api_key: Some(api_key.to_owned()),
        file: None,
    }
}

/// Builds the request that lists the stored files.
pub fn list_files(base_url: &str, api_key: &str) -> (request: Request)
    ensures
        request@ == list_model(base_url@, api_key@),
{
    Request {
        method: Method::Get,
        url: endpoint(base_url, "/list"),
        api_key: Some(api_key.to_owned()),
        file: None,
    }
}

/// Builds the request of `command`, with the stored credential where the
/// command needs one and the file's bytes where it uploads. An invalid
/// command has no request.
pub fn request_for(command: &Command, base_url: &str, credential: &str, content: Vec<u8>) -> (request:
    Option<Request>)
    ensures
        match request {
            Some(request) => Some(request@),
            None => None,
        } == request_model(base_url@, command@, credential@, content@),
{
    match command {
        Command::GenerateKey => Some(generate_key(base_url)),
        Command::CheckKey { key } => match key {
            Some(key) => Some(check_key(base_url, key.as_str())),
            None => Some(check_key(base_url, credential)),
        },
        Command::Upload { source_path, target_name } => Some(
            upload(base_url, credential, target_name.as_str(), content),
        ),
        Command::Download { file_name, target_name } => Some(
            download(base_url, credential, file_name.as_str()),
        ),
        Command::Search { query } => Some(search(base_url, credential, query.as_str())),
        Command::Delete { file_name } => Some(delete(base_url, credential, file_name.as_str())),
        Command::List => Some(list_files(base_url, credential)),
        Command::Invalid { .. } => None,
    }
}

} // verus!
