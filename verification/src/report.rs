//! What the operator is told, line by line, and what is left to do on disk.

use crate::command::{Command, CommandView, Operation, Reason, ReasonView};
use crate::outcome::{Mismatch, OperationResult, OperationResultView, Payload, PayloadView};
use crate::status::{status_line, status_text};
use crate::text::{decimal, decimal_text, occurs_in, same_text, text_of, texts};
use vstd::prelude::*;

verus! {

/// How an invocation went. Every way of failing has a kind of its own, so
/// that a caller can tell them apart without reading the lines.
#[derive(Clone, Copy, Debug, PartialEq, Eq, Structural)]
pub enum Ending {
    /// The operation did what was asked.
    Completed,
    /// The operator is missing or unknown, or arguments are missing.
    UsageError,
    /// An operation needs the credential and none is stored.
    CredentialError,
    /// The request could not be sent, or its response not received.
    TransportError,
    /// The response came with a status outside the success range.
    ProtocolError,
    /// The status reports success and the body has not the expected shape.
    DecodeError,
    /// A local file could not be read or written.
    FilesystemError,
}

/// What remains to be done on disk once the lines are out.
#[derive(Clone, Debug, PartialEq, Eq)]
pub enum Effect {
    Nothing,
    /// Store `key` as the credential, in place of any earlier one.
    SaveKey { key: String },
    /// Write `content` to `path`, whole or not at all.
    WriteFile { path: String, content: Vec<u8> },
}

/// The report on a finished operation: what to print, what is left to do
/// on disk, and how the operation went as far as it got.
#[derive(Clone, Debug, PartialEq, Eq)]
pub struct Report {
    pub lines: Vec<String>,
    pub effect: Effect,
    pub ending: Ending,
}

/// The mathematical value of an [`Effect`].
pub enum EffectView {
    Nothing,
    SaveKey { key: Seq<char> },
    WriteFile { path: Seq<char>, content: Seq<u8> },
}

/// The mathematical value of a [`Report`].
pub struct ReportView {
    pub lines: Seq<Seq<char>>,
    pub effect: EffectView,
    pub ending: Ending,
}

impl View for Effect {
    type V = EffectView;

    open spec fn view(&self) -> EffectView {
        match *self {
            Effect::Nothing => EffectView::Nothing,
            Effect::SaveKey { key } => EffectView::SaveKey { key: key@ },
            Effect::WriteFile { path, content } => EffectView::WriteFile {
                path: path@,
                content: content@,
            },
        }
    }
}

impl View for Report {
    type V = ReportView;

    open spec fn view(&self) -> ReportView {
        ReportView { lines: texts(self.lines@), effect: self.effect@, ending: self.ending }
    }
}

/// The line that introduces the program.
pub open spec fn banner_line(version: Seq<char>) -> Seq<char> {
    "UDTool v"@ + version + " by Ari Cummings"@
}

/// The usage text: a heading and one line for each operation.
pub open spec fn usage() -> Seq<Seq<char>> {
    seq![
        "Usage:"@,
        "  genkey                              - Generate a new API key"@,
        "  checkkey <api_key>                  - Check if an API key is valid"@,
        "  upload <file_path> <target_name>    - Upload a file"@,
        "  download <file_name>                - Download a file"@,
        "  search <query>                      - Search for files"@,
        "  delete <file_name>                  - Delete a file"@,
        "  list                                - List all files"@,
    ]
}

/// The usage line of one operation.
pub open spec fn usage_of(operation: Operation) -> Seq<char> {
    match operation {
        Operation::GenerateKey => "Usage: genkey"@,
        Operation::CheckKey => "Usage: checkkey [<api_key>]"@,
        Operation::Upload => "Usage: upload <file_path> <target_name>"@,
        Operation::Download => "Usage: download <file_name>"@,
        Operation::Search => "Usage: search <query>"@,
        Operation::Delete => "Usage: delete <file_name>"@,
        Operation::List => "Usage: list"@,
    }
}

/// What an invalid invocation is told: for a missing or unknown operator a
/// complaint and the usage text, for missing arguments the operation's usage
/// line.
pub open spec fn invalid_lines(reason: ReasonView) -> Seq<Seq<char>> {
    match reason {
        ReasonView::MissingOperator => seq!["Invalid operator"@] + usage(),
        ReasonView::UnknownOperator { operator } => seq!["Invalid operator: "@ + operator]
            + usage(),
        ReasonView::MissingArguments { operation } => seq![usage_of(operation)],
    }
}

/// What is said before the request of `command` goes out.
pub open spec fn announcement(command: CommandView) -> Seq<Seq<char>> {
    match command {
        CommandView::GenerateKey => seq!["Generating new API key..."@],
        CommandView::CheckKey { .. } => seq!["Checking API key..."@],
        CommandView::Upload { source_path, .. } => seq!["Uploading "@ + source_path + "..."@],
        CommandView::Download { file_name, .. } => seq!["Downloading "@ + file_name + "..."@],
        CommandView::Search { query } => seq!["Searching for "@ + query + "..."@],
        CommandView::Delete { file_name } => seq!["Deleting "@ + file_name + "..."@],
        CommandView::List => seq!["Listing all files..."@],
        CommandView::Invalid { reason } => invalid_lines(reason),
    }
}

/// How a failure names the operation that failed.
pub open spec fn failure_label(operation: Operation) -> Seq<char> {
    match operation {
        Operation::GenerateKey => "Key generation"@,
        Operation::CheckKey => "Check"@,
        Operation::Upload => "Upload"@,
        Operation::Download => "Download"@,
        Operation::Search => "Search"@,
        Operation::Delete => "Delete"@,
        Operation::List => "List"@,
    }
}

/// The report of a status outside the success range: the operation and the
/// status, then the body as it came, unless there is none.
pub open spec fn failure_lines(operation: Operation, status: u16, body: Option<Seq<char>>) -> Seq<
    Seq<char>,
> {
    let head = failure_label(operation) + " failed with status: "@ + status_text(status);
    match body {
        Some(body) => if body.len() > 0 {
            seq![head, "Server response: "@ + body]
        } else {
            seq![head]
        },
        None => seq![head],
    }
}

/// The report of an action that failed for `cause`.
pub open spec fn error_lines(cause: Seq<char>) -> Seq<Seq<char>> {
    seq!["Error: "@ + cause]
}

/// The report of a body that does not have the expected shape. A key check
/// whose answer holds no message says nothing.
pub open spec fn mismatch_lines(operation: Operation, mismatch: Mismatch) -> Seq<Seq<char>> {
    match mismatch {
        Mismatch::Malformed => seq!["Could not parse response."@],
        Mismatch::FieldMissing => match operation {
            Operation::GenerateKey => seq!["Could not extract key from response."@],
            Operation::CheckKey => seq![],
            _ => seq!["Could not parse response."@],
        },
    }
}

/// File names as the items of a list.
pub open spec fn bullets(names: Seq<Seq<char>>) -> Seq<Seq<char>> {
    names.map_values(|name: Seq<char>| "  - "@ + name)
}

/// The report of a search.
pub open spec fn search_lines(names: Seq<Seq<char>>, query: Seq<char>) -> Seq<Seq<char>> {
    if names.len() == 0 {
        seq!["No files found matching '"@ + query + "'."@]
    } else {
        seq!["Found "@ + decimal(names.len()) + " file(s):"@] + bullets(names)
    }
}

/// The report of a listing.
pub open spec fn list_lines(names: Seq<Seq<char>>) -> Seq<Seq<char>> {
    if names.len() == 0 {
        seq!["No files found."@]
    } else {
        seq!["Files:"@] + bullets(names)
    }
}

/// The report of an upload.
pub open spec fn upload_lines(base_url: Seq<char>, target_name: Seq<char>) -> Seq<Seq<char>> {
    seq!["File successfully uploaded."@, "File URL: "@ + base_url + "/"@ + target_name]
}

/// The report of a deletion.
pub open spec fn delete_lines(file_name: Seq<char>) -> Seq<Seq<char>> {
    seq!["File '"@ + file_name + "' successfully deleted."@]
}

/// A report that only speaks.
pub open spec fn said(lines: Seq<Seq<char>>, ending: Ending) -> ReportView {
    ReportView { lines, effect: EffectView::Nothing, ending }
}

/// The report of key generation: the new key, which is to be stored.
pub open spec fn generate_key_report(key: Seq<char>) -> ReportView {
    ReportView {
        lines: seq!["New API key generated: "@ + key],
        effect: EffectView::SaveKey { key },
        ending: Ending::Completed,
    }
}

/// The report of a download: nothing is said until the bytes are written,
/// to the target where one is named, else under the file's own name.
pub open spec fn download_report(
    file_name: Seq<char>,
    target_name: Option<Seq<char>>,
    bytes: Seq<u8>,
) -> ReportView {
    ReportView {
        lines: seq![],
        effect: EffectView::WriteFile {
            path: match target_name {
                Some(target_name) => target_name,
                None => file_name,
            },
            content: bytes,
        },
        ending: Ending::Completed,
    }
}

/// The report of a response that could not be parsed.
pub open spec fn unparsed_report() -> ReportView {
    said(seq!["Could not parse response."@], Ending::DecodeError)
}

/// The message by which the service declares a key valid.
pub open spec fn valid_message() -> Seq<char> {
    "Key is valid."@
}

/// The report of a key check: the service's message, and the checked key to
/// be stored if and only if the message declares it valid.
pub open spec fn check_key_report(message: Seq<char>, key: Option<Seq<char>>) -> ReportView {
    ReportView {
        lines: seq![message],
        effect: match key {
            Some(key) => if message == valid_message() {
                EffectView::SaveKey { key }
            } else {
                EffectView::Nothing
            },
            None => EffectView::Nothing,
        },
        ending: Ending::Completed,
    }
}

/// The report of a successful response. A payload of another kind than the
/// command's is reported as a response that could not be parsed.
pub open spec fn success_report(
    base_url: Seq<char>,
    command: CommandView,
    payload: PayloadView,
) -> ReportView {
    match (command, payload) {
        (CommandView::GenerateKey, PayloadView::Key { key }) => generate_key_report(key),
        (CommandView::CheckKey { key }, PayloadView::Message { message }) => check_key_report(
            message,
            key,
        ),
        (CommandView::Upload { source_path, target_name }, PayloadView::Unit) => said(
            upload_lines(base_url, target_name),
            Ending::Completed,
        ),
        (
            CommandView::Download { file_name, target_name },
            PayloadView::Content { bytes },
        ) => download_report(file_name, target_name, bytes),
        (CommandView::Search { query }, PayloadView::Names { names }) => said(
            search_lines(names, query),
            Ending::Completed,
        ),
        (CommandView::Delete { file_name }, PayloadView::Unit) => said(
            delete_lines(file_name),
            Ending::Completed,
        ),
        (CommandView::List, PayloadView::Names { names }) => said(
            list_lines(names),
            Ending::Completed,
        ),
        _ => unparsed_report(),
    }
}

/// The report on `command` given the result of its operation. An invalid
/// command has run no operation and is told how to invoke the program.
pub open spec fn report_model(
    base_url: Seq<char>,
    command: CommandView,
    result: OperationResultView,
) -> ReportView {
    match command.operation() {
        None => said(announcement(command), Ending::UsageError),
        Some(operation) => match result {
            OperationResultView::Success { payload } => success_report(
                base_url,
                command,
                payload,
            ),
            OperationResultView::Failure { status, body } => said(
                failure_lines(operation, status, body),
                Ending::ProtocolError,
            ),
            OperationResultView::TransportError { cause } => said(
                error_lines(cause),
                Ending::TransportError,
            ),
            OperationResultView::DecodeError { mismatch } => said(
                mismatch_lines(operation, mismatch),
                Ending::DecodeError,
            ),
        },
    }
}

/// What is said once the effect of `command` is done.
pub open spec fn completion(command: CommandView) -> Seq<Seq<char>> {
    match command {
        CommandView::GenerateKey => seq!["API key saved successfully."@],
        CommandView::CheckKey { .. } => seq!["API key saved successfully."@],
        CommandView::Download { file_name, .. } => seq![
            "Downloaded "@ + file_name + " successfully."@,
        ],
        _ => seq![],
    }
}

/// Joins three pieces into one line.
fn line_of(head: &str, middle: &str, tail: &str) -> (line: String)
    ensures
        line@ == head@ + middle@ + tail@,
{
    let mut line = head.to_owned();
    line.append(middle);
    line.append(tail);
    line
}

/// A list of one line.
fn single(line: String) -> (lines: Vec<String>)
    ensures
        texts(lines@) == seq![line@],
        lines@.len() == 1,
{
    let mut lines: Vec<String> = Vec::new();
    lines.push(line);
    assert(texts(lines@) =~= seq![line@]);
    lines
}

/// Adds a line at the end.
fn push_line(lines: &mut Vec<String>, line: String)
    ensures
        texts(final(lines)@) == texts(old(lines)@).push(line@),
        final(lines)@.len() == old(lines)@.len() + 1,
{
    lines.push(line);
    assert(texts(lines@) =~= texts(old(lines)@).push(line@));
}

/// Adds the usage text at the end.
fn push_usage(lines: &mut Vec<String>)
    ensures
        texts(final(lines)@) == texts(old(lines)@) + usage(),
{
    push_line(lines, "Usage:".to_owned());
    push_line(lines, "  genkey                              - Generate a new API key".to_owned());
    push_line(
        lines,
        "  checkkey <api_key>                  - Check if an API key is valid".to_owned(),
    );
    push_line(lines, "  upload <file_path> <target_name>    - Upload a file".to_owned());
    push_line(lines, "  download <file_name>                - Download a file".to_owned());
    push_line(lines, "  search <query>                      - Search for files".to_owned());
    push_line(lines, "  delete <file_name>                  - Delete a file".to_owned());
    push_line(lines, "  list                                - List all files".to_owned());
    assert(texts(lines@) =~= texts(old(lines)@) + usage());
}

/// Adds each name as an item of a list.
fn push_bullets(lines: &mut Vec<String>, names: &Vec<String>)
    ensures
        texts(final(lines)@) == texts(old(lines)@) + bullets(texts(names@)),
{
    let ghost before = texts(lines@);
    let mut at: usize = 0;
    while at < names.len()
        invariant
            at <= names.len(),
            texts(lines@) == before + bullets(texts(names@)).take(at as int),
        decreases names.len() - at,
    {
        let item = line_of("  - ", names[at].as_str(), "");
        proof {
            reveal_strlit("");
            assert(item@ =~= "  - "@ + names@[at as int]@);
            assert(item@ == bullets(texts(names@))[at as int]);
        }
        let ghost so_far = texts(lines@);
        push_line(lines, item);
        assert(texts(lines@) =~= before + bullets(texts(names@)).take(at + 1));
        at = at + 1;
    }
    assert(bullets(texts(names@)).take(at as int) =~= bullets(texts(names@)));
}

/// The line that introduces the program, with its version.
pub fn banner(version: &str) -> (line: String)
    ensures
        line@ == banner_line(version@),
{
    line_of("UDTool v", version, " by Ari Cummings")
}

/// The usage text.
pub fn print_usage() -> (lines: Vec<String>)
    ensures
        texts(lines@) == usage(),
{
    let mut lines: Vec<String> = Vec::new();
    push_usage(&mut lines);
    assert(texts(lines@) =~= usage());
    lines
}

/// The usage line of one operation.
pub fn usage_line(operation: Operation) -> (line: &'static str)
    ensures
        line@ == usage_of(operation),
{
    match operation {
        Operation::GenerateKey => "Usage: genkey",
        Operation::CheckKey => "Usage: checkkey [<api_key>]",
        Operation::Upload => "Usage: upload <file_path> <target_name>",
        Operation::Download => "Usage: download <file_name>",
        Operation::Search => "Usage: search <query>",
        Operation::Delete => "Usage: delete <file_name>",
        Operation::List => "Usage: list",
    }
}

/// Tells an invalid invocation what is wrong with it.
pub fn report_invalid(reason: &Reason) -> (lines: Vec<String>)
    ensures
        texts(lines@) == invalid_lines(reason@),
{
    match reason {
        Reason::MissingOperator => {
            let mut lines = single("Invalid operator".to_owned());
            push_usage(&mut lines);
            lines
        },
        Reason::UnknownOperator { operator } => {
            let head = line_of("Invalid operator: ", operator.as_str(), "");
            proof {
                reveal_strlit("");
                assert(head@ =~= "Invalid operator: "@ + operator@);
            }
            let mut lines = single(head);
            push_usage(&mut lines);
            lines
        },
        Reason::MissingArguments { operation } => single(usage_line(*operation).to_owned()),
    }
}

/// Says what is about to be asked of the service.
pub fn announce(command: &Command) -> (lines: Vec<String>)
    ensures
        texts(lines@) == announcement(command@),
{
    match command {
        Command::GenerateKey => single("Generating new API key...".to_owned()),
        Command::CheckKey { .. } => single("Checking API key...".to_owned()),
        Command::Upload { source_path, .. } => single(
            line_of("Uploading ", source_path.as_str(), "..."),
        ),
        Command::Download { file_name, .. } => single(
            line_of("Downloading ", file_name.as_str(), "..."),
        ),
        Command::Search { query } => single(line_of("Searching for ", query.as_str(), "...")),
        Command::Delete { file_name } => single(line_of("Deleting ", file_name.as_str(), "...")),
        Command::List => single("Listing all files...".to_owned()),
        Command::Invalid { reason } => report_invalid(reason),
    }
}

/// The name of `operation` in a failure report.
fn label(operation: Operation) -> (text: &'static str)
    ensures
        text@ == failure_label(operation),
{
    match operation {
        Operation::GenerateKey => "Key generation",
        Operation::CheckKey => "Check",
        Operation::Upload => "Upload",
        Operation::Download => "Download",
        Operation::Search => "Search",
        Operation::Delete => "Delete",
        Operation::List => "List",
    }
}

/// Reports a status outside the success range. The first line holds the
/// status code; a body that is not empty follows on a line of its own, as it
/// came.
pub fn handle_error(operation: Operation, status: u16, body: &Option<String>) -> (lines: Vec<
    String,
>)
    ensures
        texts(lines@) == failure_lines(operation, status, text_of(*body)),
        lines@.len() >= 1,
        occurs_in(decimal(status as nat), lines@[0]@),
        body matches Some(text) ==> (text@.len() > 0 ==> lines@.len() == 2 && occurs_in(
            text@,
            lines@[1]@,
        )),
{
    let shown = status_line(status);
    let head = line_of(label(operation), " failed with status: ", shown.as_str());
    let mut lines = single(head);
    assert(texts(lines@)[0] == lines@[0]@);
    proof {
        lemma_failure_lines_hold(operation, status, text_of(*body));
    }
    match body {
        Some(text) => {
            if text.as_str().unicode_len() > 0 {
                let second = line_of("Server response: ", text.as_str(), "");
                proof {
                    reveal_strlit("");
                    assert(second@ =~= "Server response: "@ + text@);
                }
                push_line(&mut lines, second);
                assert(texts(lines@)[0] == lines@[0]@);
                assert(texts(lines@)[1] == lines@[1]@);
                assert(texts(lines@) =~= failure_lines(operation, status, Some(text@)));
            }
        },
        None => {},
    }
    lines
}

/// Reports an action that failed for `cause`: a request that could not be
/// sent or answered, a file that could not be read or written.
pub fn handle_failed_action(cause: &str) -> (lines: Vec<String>)
    ensures
        texts(lines@) == error_lines(cause@),
{
    let line = line_of("Error: ", cause, "");
    proof {
        reveal_strlit("");
        assert(line@ =~= "Error: "@ + cause@);
    }
    single(line)
}

/// The report of a body of an unexpected shape.
pub fn handle_mismatch(operation: Operation, mismatch: Mismatch) -> (lines: Vec<String>)
    ensures
        texts(lines@) == mismatch_lines(operation, mismatch),
{
    match mismatch {
        Mismatch::Malformed => single("Could not parse response.".to_owned()),
        Mismatch::FieldMissing => match operation {
            Operation::GenerateKey => single("Could not extract key from response.".to_owned()),
            Operation::CheckKey => {
                let lines: Vec<String> = Vec::new();
                assert(texts(lines@) =~= Seq::<Seq<char>>::empty());
                lines
            },
            _ => single("Could not parse response.".to_owned()),
        },
    }
}

/// Reports a new key and asks for it to be stored.
pub fn handle_generate_key_success(key: String) -> (report: Report)
    ensures
        report@ == generate_key_report(key@),
{
    let line = line_of("New API key generated: ", key.as_str(), "");
    proof {
        reveal_strlit("");
        assert(line@ =~= "New API key generated: "@ + key@);
    }
    Report { lines: single(line), effect: Effect::SaveKey { key }, ending: Ending::Completed }
}

/// Reports the service's verdict on a key, and asks for the key to be stored
/// if and only if the verdict is that the key is valid.
pub fn handle_check_key_success(message: String, key: Option<String>) -> (report: Report)
    ensures
        report@ == check_key_report(message@, text_of(key)),
{
    let valid = same_text(message.as_str(), "Key is valid.");
    let lines = single(message);
    let effect = match key {
        Some(key) => if valid {
            Effect::SaveKey { key }
        } else {
            Effect::Nothing
        },
        None => Effect::Nothing,
    };
    Report { lines, effect, ending: Ending::Completed }
}

/// Reports an upload and where the file can be found.
pub fn handle_upload_success(base_url: &str, target_name: &str) -> (lines: Vec<String>)
    ensures
        texts(lines@) == upload_lines(base_url@, target_name@),
{
    let mut lines = single("File successfully uploaded.".to_owned());
    let mut second = line_of("File URL: ", base_url, "/");
    second.append(target_name);
    push_line(&mut lines, second);
    assert(texts(lines@) =~= upload_lines(base_url@, target_name@));
    lines
}

/// Asks for the downloaded bytes to be written: to the target where one is
/// named, else under the file's own name.
pub fn handle_download_success(
    file_name: String,
    target_name: Option<String>,
    bytes: Vec<u8>,
) -> (report: Report)
    ensures
        report@ == download_report(file_name@, text_of(target_name), bytes@),
{
    let path = match target_name {
        Some(target_name) => target_name,
        None => file_name,
    };
    let lines: Vec<String> = Vec::new();
    assert(texts(lines@) =~= Seq::<Seq<char>>::empty());
    Report { lines, effect: Effect::WriteFile { path, content: bytes }, ending: Ending::Completed }
}

/// Reports what a search found: each name in the service's order, or that
/// nothing matches.
pub fn handle_search_success(names: &Vec<String>, query: &str) -> (lines: Vec<String>)
    ensures
        texts(lines@) == search_lines(texts(names@), query@),
{
    if names.len() == 0 {
        single(line_of("No files found matching '", query, "'."))
    } else {
        let count = decimal_text(names.len() as u64);
        let mut lines = single(line_of("Found ", count.as_str(), " file(s):"));
        push_bullets(&mut lines, names);
        lines
    }
}

/// Reports a deletion.
pub fn handle_delete_success(file_name: &str) -> (lines: Vec<String>)
    ensures
        texts(lines@) == delete_lines(file_name@),
{
    single(line_of("File '", file_name, "' successfully deleted."))
}

/// Reports a listing: each name in the service's order, or that there is
/// none.
pub fn handle_list_success(names: &Vec<String>) -> (lines: Vec<String>)
    ensures
        texts(lines@) == list_lines(texts(names@)),
{
    if names.len() == 0 {
        single("No files found.".to_owned())
    } else {
        let mut lines = single("Files:".to_owned());
        push_bullets(&mut lines, names);
        lines
    }
}

/// What is said once the effect of `command` is done.
pub fn complete(command: &Command) -> (lines: Vec<String>)
    ensures
        texts(lines@) == completion(command@),
{
    match command {
        Command::GenerateKey => single("API key saved successfully.".to_owned()),
        Command::CheckKey { .. } => single("API key saved successfully.".to_owned()),
        Command::Download { file_name, .. } => single(
            line_of("Downloaded ", file_name.as_str(), " successfully."),
        ),
        _ => {
            let lines: Vec<String> = Vec::new();
            assert(texts(lines@) =~= Seq::<Seq<char>>::empty());
            lines
        },
    }
}

/// A report that only speaks.
fn spoken(lines: Vec<String>, ending: Ending) -> (report: Report)
    ensures
        report@ == said(texts(lines@), ending),
{
    Report { lines, effect: Effect::Nothing, ending }
}

/// The report of a response that could not be parsed.
fn unparsed() -> (report: Report)
    ensures
        report@ == unparsed_report(),
{
    spoken(single("Could not parse response.".to_owned()), Ending::DecodeError)
}

/// Reports a successful response to `command`. A payload of another kind
/// than the command's is reported as a response that could not be parsed.
pub fn handle_success(command: Command, base_url: &str, payload: Payload) -> (report: Report)
    ensures
        report@ == success_report(base_url@, command@, payload@),
{
    match command {
        Command::GenerateKey => match payload {
            Payload::Key { key } => handle_generate_key_success(key),
            _ => unparsed(),
        },
        Command::CheckKey { key } => match payload {
            Payload::Message { message } => handle_check_key_success(message, key),
            _ => unparsed(),
        },
        Command::Upload { source_path, target_name } => match payload {
            Payload::Unit => spoken(
                handle_upload_success(base_url, target_name.as_str()),
                Ending::Completed,
            ),
            _ => unparsed(),
        },
        Command::Download { file_name, target_name } => match payload {
            Payload::Content { bytes } => handle_download_success(file_name, target_name, bytes),
            _ => unparsed(),
        },
        Command::Search { query } => match payload {
            Payload::Names { names } => spoken(
                handle_search_success(&names, query.as_str()),
                Ending::Completed,
            ),
            _ => unparsed(),
        },
        Command::Delete { file_name } => match payload {
            Payload::Unit => spoken(handle_delete_success(file_name.as_str()), Ending::Completed),
            _ => unparsed(),
        },
        Command::List => match payload {
            Payload::Names { names } => spoken(handle_list_success(&names), Ending::Completed),
            _ => unparsed(),
        },
        Command::Invalid { .. } => unparsed(),
    }
}

/// Reports the result of the operation that `command` ran: what to print,
/// and what is left to do on disk. Only a success leaves anything to do.
pub fn report(command: Command, base_url: &str, result: OperationResult) -> (report: Report)
    ensures
        report@ == report_model(base_url@, command@, result@),
{
    match command.operation() {
        None => spoken(announce(&command), Ending::UsageError),
        Some(operation) => match result {
            OperationResult::Success { payload } => handle_success(command, base_url, payload),
            OperationResult::Failure { status, body } => spoken(
                handle_error(operation, status, &body),
                Ending::ProtocolError,
            ),
            OperationResult::TransportError { cause } => spoken(
                handle_failed_action(cause.as_str()),
                Ending::TransportError,
            ),
            OperationResult::DecodeError { mismatch } => spoken(
                handle_mismatch(operation, mismatch),
                Ending::DecodeError,
            ),
        },
    }
}

/// A text occurs in whatever is written around it.
pub proof fn lemma_occurs_between(before: Seq<char>, text: Seq<char>, after: Seq<char>)
    ensures
        occurs_in(text, before + text + after),
{
    let whole = before + text + after;
    let at = before.len() as int;
    assert(whole.subrange(at, at + text.len()) =~= text);
}

/// A failure report shows the status code in its first line and a body that
/// is not empty in its second.
pub proof fn lemma_failure_lines_hold(operation: Operation, status: u16, body: Option<Seq<char>>)
    ensures
        failure_lines(operation, status, body).len() >= 1,
        occurs_in(decimal(status as nat), failure_lines(operation, status, body)[0]),
        body matches Some(text) ==> (text.len() > 0 ==> failure_lines(
            operation,
            status,
            body,
        ).len() == 2 && occurs_in(text, failure_lines(operation, status, body)[1])),
{
    let before = failure_label(operation) + " failed with status: "@;
    let after = " "@ + match crate::status::reason_phrase(status) {
        Some(phrase) => phrase,
        None => "<unknown status code>"@,
    };
    lemma_occurs_between(before, decimal(status as nat), after);
    assert(failure_lines(operation, status, body)[0] =~= before + decimal(status as nat) + after);
    if let Some(text) = body {
        if text.len() > 0 {
            lemma_occurs_between("Server response: "@, text, Seq::empty());
            assert(failure_lines(operation, status, body)[1] =~= "Server response: "@ + text
                + Seq::<char>::empty());
        }
    }
}

} // verus!
