//! One invocation, step by step.
//!
//! The library decides and the caller acts. [`begin`] reads the arguments
//! and names the first action; the caller performs it and hands the outcome
//! to [`advance`] as an [`Event`], until the action is [`Action::Finish`].
//! Each step carries the lines to print before its action is performed.

use crate::command::{command_of, parse_command, Command, CommandView, Operation, Reason};
use crate::credential::{
    load_api_key, load_model, read_of, store_error_message, StoreError, StoreErrorView,
};
use crate::outcome::{
    failure_model, failure_of, success_model, success_of, unread, unread_model, OperationResult,
    OperationResultView,
};
use crate::report::{
    announce, announcement, complete, completion, error_lines, handle_failed_action, report,
    report_model, Effect, EffectView, Ending, Report, ReportView,
};
use crate::request::{needs_credential, request_for, request_model, Request, RequestView};
use crate::status::{is_success, success_range};
use crate::text::{text_of, texts};
use vstd::prelude::*;

verus! {

/// The form in which a response body is wanted.
#[derive(Clone, Copy, Debug, PartialEq, Eq, Structural)]
pub enum BodyForm {
    /// As text, decoded by the transport.
    Text,
    /// As the bytes that came.
    Bytes,
}

/// What the caller is to do next.
#[derive(Clone, Debug, PartialEq, Eq)]
pub enum Action {
    /// Read the key file.
    LoadKey,
    /// Read the file at `path`.
    ReadFile { path: String },
    /// Send `request` and wait for the status of the response.
    Send { request: Request },
    /// Read the body of the response.
    ReadBody { form: BodyForm },
    /// Write `key` to the key file, in place of what it held.
    SaveKey { key: String },
    /// Write `content` to `path`, whole or not at all.
    WriteFile { path: String, content: Vec<u8> },
    /// Nothing: the invocation is over, and this is how it went.
    Finish { ending: Ending },
}

/// How the action of the last step went.
#[derive(Clone, Debug, PartialEq, Eq)]
pub enum Event {
    /// There is no key file.
    KeyMissing,
    /// The key file holds `text`.
    KeyContent { text: String },
    /// The file that was asked for holds `bytes`.
    FileContent { bytes: Vec<u8> },
    /// The response arrived with status `code`.
    Status { code: u16 },
    /// The body, as text.
    BodyText { text: String },
    /// The body, as bytes.
    BodyBytes { bytes: Vec<u8> },
    /// The key or the file was written.
    Stored,
    /// The action failed, for the cause given.
    Failed { cause: String },
}

/// What an invocation is waiting for.
#[derive(Clone, Debug, PartialEq, Eq)]
pub enum State {
    AwaitKey { command: Command },
    AwaitFile { command: Command, credential: String },
    AwaitStatus { command: Command },
    AwaitBody { command: Command, status: u16 },
    AwaitStore { command: Command },
    Done,
}

/// One step of an invocation: the lines to print, the action to perform
/// after them, and the state in which its outcome is awaited.
#[derive(Clone, Debug, PartialEq, Eq)]
pub struct Step {
    pub state: State,
    pub lines: Vec<String>,
    pub action: Action,
}

/// The mathematical value of an [`Action`].
pub enum ActionView {
    LoadKey,
    ReadFile { path: Seq<char> },
    Send { request: RequestView },
    ReadBody { form: BodyForm },
    SaveKey { key: Seq<char> },
    WriteFile { path: Seq<char>, content: Seq<u8> },
    Finish { ending: Ending },
}

/// The mathematical value of an [`Event`].
pub enum EventView {
    KeyMissing,
    KeyContent { text: Seq<char> },
    FileContent { bytes: Seq<u8> },
    Status { code: u16 },
    BodyText { text: Seq<char> },
    BodyBytes { bytes: Seq<u8> },
    Stored,
    Failed { cause: Seq<char> },
}

/// The mathematical value of a [`State`].
pub enum StateView {
    AwaitKey { command: CommandView },
    AwaitFile { command: CommandView, credential: Seq<char> },
    AwaitStatus { command: CommandView },
    AwaitBody { command: CommandView, status: u16 },
    AwaitStore { command: CommandView },
    Done,
}

/// The mathematical value of a [`Step`].
pub struct StepView {
    pub state: StateView,
    pub lines: Seq<Seq<char>>,
    pub action: ActionView,
}

impl View for Action {
    type V = ActionView;

    open spec fn view(&self) -> ActionView {
        match *self {
            Action::LoadKey => ActionView::LoadKey,
            Action::ReadFile { path } => ActionView::ReadFile { path: path@ },
            Action::Send { request } => ActionView::Send { request: request@ },
            Action::ReadBody { form } => ActionView::ReadBody { form },
            Action::SaveKey { key } => ActionView::SaveKey { key: key@ },
            Action::WriteFile { path, content } => ActionView::WriteFile {
                path: path@,
                content: content@,
            },
            Action::Finish { ending } => ActionView::Finish { ending },
        }
    }
}

impl View for Event {
    type V = EventView;

    open spec fn view(&self) -> EventView {
        match *self {
            Event::KeyMissing => EventView::KeyMissing,
            Event::KeyContent { text } => EventView::KeyContent { text: text@ },
            Event::FileContent { bytes } => EventView::FileContent { bytes: bytes@ },
            Event::Status { code } => EventView::Status { code },
            Event::BodyText { text } => EventView::BodyText { text: text@ },
            Event::BodyBytes { bytes } => EventView::BodyBytes { bytes: bytes@ },
            Event::Stored => EventView::Stored,
            Event::Failed { cause } => EventView::Failed { cause: cause@ },
        }
    }
}

impl View for State {
    type V = StateView;

    open spec fn view(&self) -> StateView {
        match *self {
            State::AwaitKey { command } => StateView::AwaitKey { command: command@ },
            State::AwaitFile { command, credential } => StateView::AwaitFile {
                command: command@,
                credential: credential@,
            },
            State::AwaitStatus { command } => StateView::AwaitStatus { command: command@ },
            State::AwaitBody { command, status } => StateView::AwaitBody {
                command: command@,
                status,
            },
            State::AwaitStore { command } => StateView::AwaitStore { command: command@ },
            State::Done => StateView::Done,
        }
    }
}

impl View for Step {
    type V = StepView;

    open spec fn view(&self) -> StepView {
        StepView { state: self.state@, lines: texts(self.lines@), action: self.action@ }
    }
}

/// The last step: `lines`, and then nothing.
pub open spec fn finish(lines: Seq<Seq<char>>, ending: Ending) -> StepView {
    StepView { state: StateView::Done, lines, action: ActionView::Finish { ending } }
}

/// The step that follows a report: its lines, and its effect as the next
/// action, if it has one.
pub open spec fn conclude(command: CommandView, report: ReportView) -> StepView {
    match report.effect {
        EffectView::Nothing => finish(report.lines, report.ending),
        EffectView::SaveKey { key } => StepView {
            state: StateView::AwaitStore { command },
            lines: report.lines,
            action: ActionView::SaveKey { key },
        },
        EffectView::WriteFile { path, content } => StepView {
            state: StateView::AwaitStore { command },
            lines: report.lines,
            action: ActionView::WriteFile { path, content },
        },
    }
}

/// The step that sends the request of `command`: it announces the operation
/// and waits for the status. An invalid command is told what is wrong.
pub open spec fn send_model(
    base_url: Seq<char>,
    command: CommandView,
    credential: Seq<char>,
    content: Seq<u8>,
) -> StepView {
    match request_model(base_url, command, credential, content) {
        Some(request) => StepView {
            state: StateView::AwaitStatus { command },
            lines: announcement(command),
            action: ActionView::Send { request },
        },
        None => finish(announcement(command), Ending::UsageError),
    }
}

/// The first step of `command`: to load the credential where the command
/// needs it, else to send the request.
pub open spec fn start_model(base_url: Seq<char>, command: CommandView) -> StepView {
    if needs_credential(command) {
        StepView {
            state: StateView::AwaitKey { command },
            lines: seq![],
            action: ActionView::LoadKey,
        }
    } else {
        send_model(base_url, command, Seq::empty(), Seq::empty())
    }
}

/// The first step of an invocation with the arguments `args`.
pub open spec fn begin_model(base_url: Seq<char>, args: Seq<Seq<char>>) -> StepView {
    start_model(base_url, command_of(args))
}

/// The step that follows the credential: a key check without a key takes
/// the credential for its subject, an upload reads its file, and every other
/// command sends its request.
pub open spec fn credential_model(
    base_url: Seq<char>,
    command: CommandView,
    credential: Seq<char>,
) -> StepView {
    match command {
        CommandView::CheckKey { key: None } => send_model(
            base_url,
            CommandView::CheckKey { key: Some(credential) },
            credential,
            Seq::empty(),
        ),
        CommandView::Upload { source_path, target_name } => StepView {
            state: StateView::AwaitFile { command, credential },
            lines: seq![],
            action: ActionView::ReadFile { path: source_path },
        },
        _ => send_model(base_url, command, credential, Seq::empty()),
    }
}

/// How an invocation ends that could not load the credential.
pub open spec fn store_error_ending(error: StoreErrorView) -> Ending {
    match error {
        StoreErrorView::NotFound => Ending::CredentialError,
        StoreErrorView::Io { .. } => Ending::FilesystemError,
    }
}

/// The step that follows a read of the key file: with the credential the
/// command goes on; without one the operator is told why, and nothing is
/// sent.
pub open spec fn key_model(
    base_url: Seq<char>,
    command: CommandView,
    read: Result<Option<Seq<char>>, Seq<char>>,
) -> StepView {
    match load_model(read) {
        Ok(credential) => credential_model(base_url, command, credential),
        Err(error) => finish(seq![store_error_message(error)], store_error_ending(error)),
    }
}

/// Whether a successful response to `operation` has a body worth reading.
pub open spec fn expects_body(operation: Operation) -> bool {
    match operation {
        Operation::Upload | Operation::Delete => false,
        _ => true,
    }
}

/// The step that follows the status `code` of the response to `operation`.
/// Outside the success range the body is wanted as text; inside it as bytes,
/// unless the status alone reports the success.
pub open spec fn status_model(
    base_url: Seq<char>,
    command: CommandView,
    operation: Operation,
    code: u16,
) -> StepView {
    if !success_range(code) {
        StepView {
            state: StateView::AwaitBody { command, status: code },
            lines: seq![],
            action: ActionView::ReadBody { form: BodyForm::Text },
        }
    } else if expects_body(operation) {
        StepView {
            state: StateView::AwaitBody { command, status: code },
            lines: seq![],
            action: ActionView::ReadBody { form: BodyForm::Bytes },
        }
    } else {
        conclude(command, report_model(base_url, command, success_model(operation, Seq::empty())))
    }
}

/// The result that the body of a response with status `status` gives to
/// `operation`; `None` where the event is no outcome of reading that body.
/// Outside the success range a body that could not be read counts as none.
pub open spec fn body_result(operation: Operation, status: u16, event: EventView) -> Option<
    OperationResultView,
> {
    if !success_range(status) {
        match event {
            EventView::BodyText { text } => Some(failure_model(status, Some(text))),
            EventView::Failed { cause } => Some(failure_model(status, None)),
            _ => None,
        }
    } else {
        match event {
            EventView::BodyBytes { bytes } => Some(success_model(operation, bytes)),
            EventView::Failed { cause } => Some(unread_model(operation, cause)),
            _ => None,
        }
    }
}

/// The step that follows `event` in `state`, where `event` is an outcome of
/// the action that led to `state`; `None` where it is none, where the
/// invocation is over, and where `state` awaits a response to a command
/// that has no operation.
pub open spec fn step_model(base_url: Seq<char>, state: StateView, event: EventView) -> Option<
    StepView,
> {
    match state {
        StateView::AwaitKey { command } => match event {
            EventView::KeyMissing => Some(key_model(base_url, command, Ok(None))),
            EventView::KeyContent { text } => Some(key_model(base_url, command, Ok(Some(text)))),
            EventView::Failed { cause } => Some(key_model(base_url, command, Err(cause))),
            _ => None,
        },
        StateView::AwaitFile { command, credential } => match event {
            EventView::FileContent { bytes } => Some(
                send_model(base_url, command, credential, bytes),
            ),
            EventView::Failed { cause } => Some(
                finish(error_lines(cause), Ending::FilesystemError),
            ),
            _ => None,
        },
        StateView::AwaitStatus { command } => match (command.operation(), event) {
            (Some(operation), EventView::Status { code }) => Some(
                status_model(base_url, command, operation, code),
            ),
            (Some(operation), EventView::Failed { cause }) => Some(
                conclude(
                    command,
                    report_model(
                        base_url,
                        command,
                        OperationResultView::TransportError { cause },
                    ),
                ),
            ),
            _ => None,
        },
        StateView::AwaitBody { command, status } => match command.operation() {
            Some(operation) => match body_result(operation, status, event) {
                Some(result) => Some(conclude(command, report_model(base_url, command, result))),
                None => None,
            },
            None => None,
        },
        StateView::AwaitStore { command } => match event {
            EventView::Stored => Some(finish(completion(command), Ending::Completed)),
            EventView::Failed { cause } => Some(
                finish(error_lines(cause), Ending::FilesystemError),
            ),
            _ => None,
        },
        StateView::Done => None,
    }
}

/// The view of a step that may be missing.
pub open spec fn step_of(step: Option<Step>) -> Option<StepView> {
    match step {
        Some(step) => Some(step@),
        None => None,
    }
}

/// The last step, with `lines` to print.
fn finished(lines: Vec<String>, ending: Ending) -> (step: Step)
    ensures
        step@ == finish(texts(lines@), ending),
{
    Step { state: State::Done, lines, action: Action::Finish { ending } }
}

/// No lines.
fn silence() -> (lines: Vec<String>)
    ensures
        texts(lines@) == Seq::<Seq<char>>::empty(),
{
    let lines: Vec<String> = Vec::new();
    assert(texts(lines@) =~= Seq::<Seq<char>>::empty());
    lines
}

/// Turns a report into a step: its lines, and its effect as the action.
fn concluded(command: Command, report: Report) -> (step: Step)
    ensures
        step@ == conclude(command@, report@),
{
    let Report { lines, effect, ending } = report;
    match effect {
        Effect::Nothing => finished(lines, ending),
        Effect::SaveKey { key } => Step {
            state: State::AwaitStore { command },
            lines,
            action: Action::SaveKey { key },
        },
        Effect::WriteFile { path, content } => Step {
            state: State::AwaitStore { command },
            lines,
            action: Action::WriteFile { path, content },
        },
    }
}

/// Announces `command` and sends its request.
fn send(base_url: &str, command: Command, credential: &str, content: Vec<u8>) -> (step: Step)
    ensures
        step@ == send_model(base_url@, command@, credential@, content@),
{
    let lines = announce(&command);
    match request_for(&command, base_url, credential, content) {
        Some(request) => Step {
            state: State::AwaitStatus { command },
            lines,
            action: Action::Send { request },
        },
        None => finished(lines, Ending::UsageError),
    }
}

/// A copy of `reason`.
fn copy_reason(reason: &Reason) -> (copy: Reason)
    ensures
        copy@ == reason@,
{
    match reason {
        Reason::MissingOperator => Reason::MissingOperator,
        Reason::UnknownOperator { operator } => Reason::UnknownOperator {
            operator: operator.clone(),
        },
        Reason::MissingArguments { operation } => Reason::MissingArguments {
            operation: *operation,
        },
    }
}

/// A copy of an optional string.
fn copy_text(text: &Option<String>) -> (copy: Option<String>)
    ensures
        text_of(copy) == text_of(*text),
{
    match text {
        Some(text) => Some(text.clone()),
        None => None,
    }
}

/// A copy of `command`.
fn copy_command(command: &Command) -> (copy: Command)
    ensures
        copy@ == command@,
{
    match command {
        Command::GenerateKey => Command::GenerateKey,
        Command::CheckKey { key } => Command::CheckKey { key: copy_text(key) },
        Command::Upload { source_path, target_name } => Command::Upload {
            source_path: source_path.clone(),
            target_name: target_name.clone(),
        },
        Command::Download { file_name, target_name } => Command::Download {
            file_name: file_name.clone(),
            target_name: copy_text(target_name),
        },
        Command::Search { query } => Command::Search { query: query.clone() },
        Command::Delete { file_name } => Command::Delete { file_name: file_name.clone() },
        Command::List => Command::List,
        Command::Invalid { reason } => Command::Invalid { reason: copy_reason(reason) },
    }
}

/// Reports `result` and turns the report into a step.
fn reported(base_url: &str, command: Command, result: OperationResult) -> (step: Step)
    ensures
        step@ == conclude(command@, report_model(base_url@, command@, result@)),
{
    let told = report(copy_command(&command), base_url, result);
    concluded(command, told)
}

/// Tells whether `command` needs the stored credential before its request
/// can be built.
pub fn wants_credential(command: &Command) -> (wanted: bool)
    ensures
        wanted == needs_credential(command@),
{
    match command {
        Command::GenerateKey => false,
        Command::CheckKey { key } => key.is_none(),
        Command::Invalid { .. } => false,
        _ => true,
    }
}

/// Tells whether a successful response to `operation` has a body worth
/// reading.
pub fn wants_body(operation: Operation) -> (wanted: bool)
    ensures
        wanted == expects_body(operation),
{
    match operation {
        Operation::Upload | Operation::Delete => false,
        _ => true,
    }
}

/// Takes the first step of `command`: an invalid command is told what is
/// wrong with it, a command that needs the credential asks for the key
/// file, and any other sends its request.
pub fn start(command: Command, base_url: &str) -> (step: Step)
    ensures
        step@ == start_model(base_url@, command@),
{
    if wants_credential(&command) {
        Step { state: State::AwaitKey { command }, lines: silence(), action: Action::LoadKey }
    } else {
        let step = send(base_url, command, "", Vec::new());
        proof {
            reveal_strlit("");
            assert(""@ =~= Seq::<char>::empty());
        }
        step
    }
}

/// Takes the first step of an invocation. `args` holds the program's name,
/// the operator and the operator's arguments.
pub fn begin(args: &[String], base_url: &str) -> (step: Step)
    ensures
        step@ == begin_model(base_url@, texts(args@)),
{
    start(parse_command(args), base_url)
}

/// Goes on with the credential in hand.
pub fn with_credential(base_url: &str, command: Command, credential: String) -> (step: Step)
    ensures
        step@ == credential_model(base_url@, command@, credential@),
{
    match command {
        Command::CheckKey { key: None } => {
            let subject = Command::CheckKey { key: Some(credential.clone()) };
            send(base_url, subject, credential.as_str(), Vec::new())
        },
        Command::Upload { source_path, target_name } => {
            let path = source_path.clone();
            Step {
                state: State::AwaitFile {
                    command: Command::Upload { source_path, target_name },
                    credential,
                },
                lines: silence(),
                action: Action::ReadFile { path },
            }
        },
        _ => send(base_url, command, credential.as_str(), Vec::new()),
    }
}

/// Goes on after a read of the key file: `read` is its content, `None` for
/// a file that does not exist, or the cause for which it could not be read.
pub fn after_key(base_url: &str, command: Command, read: Result<Option<String>, String>) -> (step:
    Step)
    ensures
        step@ == key_model(base_url@, command@, read_of(read)),
{
    match load_api_key(read) {
        Ok(credential) => with_credential(base_url, command, credential),
        Err(error) => {
            let ending = match error {
                StoreError::NotFound => Ending::CredentialError,
                StoreError::Io { .. } => Ending::FilesystemError,
            };
            let mut lines: Vec<String> = Vec::new();
            lines.push(error.message());
            assert(texts(lines@) =~= seq![store_error_message(error@)]);
            finished(lines, ending)
        },
    }
}

/// Goes on after the status `code` of the response to `operation`.
pub fn after_status(base_url: &str, command: Command, operation: Operation, code: u16) -> (step:
    Step)
    ensures
        step@ == status_model(base_url@, command@, operation, code),
{
    if !is_success(code) {
        Step {
            state: State::AwaitBody { command, status: code },
            lines: silence(),
            action: Action::ReadBody { form: BodyForm::Text },
        }
    } else if wants_body(operation) {
        Step {
            state: State::AwaitBody { command, status: code },
            lines: silence(),
            action: Action::ReadBody { form: BodyForm::Bytes },
        }
    } else {
        reported(base_url, command, success_of(operation, Vec::new()))
    }
}

/// Reads the body of a response with status `status` as `operation` expects
/// it; `None` where the event is no outcome of reading that body.
pub fn read_body(operation: Operation, status: u16, event: Event) -> (result: Option<
    OperationResult,
>)
    ensures
        match result {
            Some(result) => Some(result@),
            None => None,
        } == body_result(operation, status, event@),
{
    if !is_success(status) {
        match event {
            Event::BodyText { text } => Some(failure_of(status, Some(text))),
            Event::Failed { cause } => Some(failure_of(status, None)),
            _ => None,
        }
    } else {
        match event {
            Event::BodyBytes { bytes } => Some(success_of(operation, bytes)),
            Event::Failed { cause } => Some(unread(operation, cause)),
            _ => None,
        }
    }
}

/// Takes the step that follows `event` in `state`.
///
/// The event is the outcome of the action of the step that gave `state`.
/// There is a next step exactly where the event is such an outcome; for any
/// other event, and once the invocation is over, there is none.
pub fn advance(state: State, event: Event, base_url: &str) -> (step: Option<Step>)
    ensures
        step_of(step) == step_model(base_url@, state@, event@),
{
    match state {
        State::AwaitKey { command } => match event {
            Event::KeyMissing => Some(after_key(base_url, command, Ok(None))),
            Event::KeyContent { text } => Some(after_key(base_url, command, Ok(Some(text)))),
            Event::Failed { cause } => Some(after_key(base_url, command, Err(cause))),
            _ => None,
        },
        State::AwaitFile { command, credential } => match event {
            Event::FileContent { bytes } => Some(
                send(base_url, command, credential.as_str(), bytes),
            ),
            Event::Failed { cause } => Some(
                finished(handle_failed_action(cause.as_str()), Ending::FilesystemError),
            ),
            _ => None,
        },
        State::AwaitStatus { command } => match command.operation() {
            Some(operation) => match event {
                Event::Status { code } => Some(after_status(base_url, command, operation, code)),
                Event::Failed { cause } => Some(
                    reported(base_url, command, OperationResult::TransportError { cause }),
                ),
                _ => None,
            },
            None => None,
        },
        State::AwaitBody { command, status } => match command.operation() {
            Some(operation) => match read_body(operation, status, event) {
                Some(result) => Some(reported(base_url, command, result)),
                None => None,
            },
            None => None,
        },
        State::AwaitStore { command } => match event {
            Event::Stored => Some(finished(complete(&command), Ending::Completed)),
            Event::Failed { cause } => Some(
                finished(handle_failed_action(cause.as_str()), Ending::FilesystemError),
            ),
            _ => None,
        },
        State::Done => None,
    }
}

} // verus!
