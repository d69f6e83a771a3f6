//! The stored credential: where its file lies and what a read of it yields.
//!
//! The credential is one opaque string in one file. It is written whole when
//! a key is issued or found valid, and read, trimmed of surrounding white
//! space, before every operation that needs it.

use crate::text::{text_of, texts, trim, trimmed};
use std::path::PathBuf;
use vstd::prelude::*;

verus! {

/// A path of the file system, carried as the platform gives it.
#[verifier::external_type_specification]
#[verifier::external_body]
pub struct ExPathBuf(PathBuf);

/// Where the credential is kept: `names`, one after the other, below `base`;
/// without a base, relative to the working directory.
#[derive(Clone, Debug, PartialEq, Eq)]
pub struct KeyFile {
    pub base: Option<PathBuf>,
    pub names: Vec<String>,
}

/// Why the credential store could not serve.
#[derive(Clone, Debug, PartialEq, Eq)]
pub enum StoreError {
    /// No credential is stored.
    NotFound,
    /// The file system refused, for the cause given.
    Io { cause: String },
}

/// The mathematical value of a [`StoreError`].
pub enum StoreErrorView {
    NotFound,
    Io { cause: Seq<char> },
}

impl View for StoreError {
    type V = StoreErrorView;

    open spec fn view(&self) -> StoreErrorView {
        match *self {
            StoreError::NotFound => StoreErrorView::NotFound,
            StoreError::Io { cause } => StoreErrorView::Io { cause: cause@ },
        }
    }
}

/// The names that lead to the credential's file: the application's
/// directory and the file inside the configuration directory, the file
/// alone where there is no such directory.
pub open spec fn key_file_names(has_base: bool) -> Seq<Seq<char>> {
    if has_base {
        seq!["UDTool"@, "api_key.txt"@]
    } else {
        seq!["api_key.txt"@]
    }
}

/// The credential that the content of the key file holds, if it holds one.
/// `None` stands for a file that does not exist. The content counts without
/// the white space around it, and an empty rest is no credential.
pub open spec fn stored_credential(content: Option<Seq<char>>) -> Option<Seq<char>> {
    match content {
        Some(text) => if trimmed(text).len() > 0 {
            Some(trimmed(text))
        } else {
            None
        },
        None => None,
    }
}

/// What a read of the key file yields: the credential it holds, or why
/// there is none. `read` is the content of the file, `None` for a file that
/// does not exist, or the cause for which it could not be read.
pub open spec fn load_model(read: Result<Option<Seq<char>>, Seq<char>>) -> Result<
    Seq<char>,
    StoreErrorView,
> {
    match read {
        Ok(content) => match stored_credential(content) {
            Some(key) => Ok(key),
            None => Err(StoreErrorView::NotFound),
        },
        Err(cause) => Err(StoreErrorView::Io { cause }),
    }
}

/// The view of a read of the key file.
pub open spec fn read_of(read: Result<Option<String>, String>) -> Result<
    Option<Seq<char>>,
    Seq<char>,
> {
    match read {
        Ok(content) => Ok(text_of(content)),
        Err(cause) => Err(cause@),
    }
}

/// The view of a credential that may have failed to load.
pub open spec fn loaded_of(loaded: Result<String, StoreError>) -> Result<
    Seq<char>,
    StoreErrorView,
> {
    match loaded {
        Ok(key) => Ok(key@),
        Err(error) => Err(error@),
    }
}

/// What tells the operator that no credential is stored, and how to get one.
pub open spec fn missing_credential_message() -> Seq<char> {
    "API key not found. Use 'genkey' command to generate a new key."@
}

/// How a store error reads to the operator.
pub open spec fn store_error_message(error: StoreErrorView) -> Seq<char> {
    match error {
        StoreErrorView::NotFound => missing_credential_message(),
        StoreErrorView::Io { cause } => "Error: "@ + cause,
    }
}

/// Calls `dirs::config_dir`, which reads the user's configuration directory
/// from the environment and may find none. Nothing is claimed of the result.
#[verifier::external_body]
pub(crate) fn config_dir() -> Option<PathBuf> {
    dirs::config_dir()
}

/// Places the key file below `config_dir`, or in the working directory where
/// there is no configuration directory.
pub fn key_file_under(config_dir: Option<PathBuf>) -> (file: KeyFile)
    ensures
        file.base == config_dir,
        texts(file.names@) == key_file_names(config_dir is Some),
{
    let mut names: Vec<String> = Vec::new();
    if config_dir.is_some() {
        names.push("UDTool".to_owned());
    }
    names.push("api_key.txt".to_owned());
    assert(texts(names@) =~= key_file_names(config_dir is Some));
    KeyFile { base: config_dir, names }
}

/// Locates the key file for the current user. Whatever directory the
/// platform names, the file lies below it under the same two names.
pub fn get_api_key_file() -> (file: KeyFile)
    ensures
        texts(file.names@) == key_file_names(file.base is Some),
{
    key_file_under(config_dir())
}

/// Reads the credential out of what a read of the key file gave: the
/// content, `None` for a file that does not exist, or the cause for which
/// the file could not be read.
///
/// Fails with [`StoreError::NotFound`] exactly where the file is absent or
/// holds nothing but white space, and with [`StoreError::Io`] exactly where
/// the read failed.
pub fn load_api_key(read: Result<Option<String>, String>) -> (loaded: Result<String, StoreError>)
    ensures
        loaded_of(loaded) == load_model(read_of(read)),
{
    match read {
        Ok(Some(text)) => {
            let key = trim(text.as_str());
            if key.as_str().unicode_len() > 0 {
                Ok(key)
            } else {
                Err(StoreError::NotFound)
            }
        },
        Ok(None) => Err(StoreError::NotFound),
        Err(cause) => Err(StoreError::Io { cause }),
    }
}

impl StoreError {
    /// The line that reports this error to the operator.
    pub fn message(&self) -> (line: String)
        ensures
            line@ == store_error_message(self@),
    {
        match self {
            StoreError::NotFound => {
                "API key not found. Use 'genkey' command to generate a new key.".to_owned()
            },
            StoreError::Io { cause } => {
                let mut line = "Error: ".to_owned();
                line.append(cause.as_str());
                line
            },
        }
    }
}

} // verus!
