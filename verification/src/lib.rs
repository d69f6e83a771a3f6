//! The decision core of a command-line client for a remote file-hosting
//! service.
//!
//! The client uploads, downloads, searches, deletes and lists files over
//! HTTP, and keeps the API key that authorizes these operations in a file of
//! its own. This library holds every decision of the client and performs no
//! input or output: it selects the command from the arguments, builds the one
//! request of each operation, reads the response, and says what to print and
//! what to store. The caller sends the request and touches the disk.
//!
//! - [`command`]: the commands and how the arguments select one.
//! - [`credential`]: the key file and what a read of it yields.
//! - [`request`]: the request of each operation.
//! - [`outcome`]: what a response amounts to.
//! - [`report`]: what the operator is told, and what is left to do on disk.
//! - [`session`]: one invocation as a sequence of steps.
//! - [`guarantees`]: what holds of every invocation.
//! - [`status`], [`json`], [`text`]: status codes, JSON bodies and text.

pub mod command;
pub mod credential;
pub mod guarantees;
pub mod json;
pub mod outcome;
pub mod report;
pub mod request;
pub mod session;
pub mod status;
pub mod text;
