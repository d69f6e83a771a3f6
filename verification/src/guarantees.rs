//! What holds of every invocation, proved from the models of the steps.

use crate::command::{command_for, operation_named, CommandView};
use crate::credential::{missing_credential_message, stored_credential};
use crate::outcome::{OperationResultView, PayloadView};
use crate::report::{
    bullets, lemma_failure_lines_hold, list_lines, report_model, search_lines, usage,
    valid_message, EffectView, Ending,
};
use crate::request::{
    needs_credential, requires_authorization, FilePartView, Method, RequestView,
};
use crate::session::{
    begin_model, finish, key_model, start_model, step_model, ActionView, EventView, StateView,
    StepView,
};
use crate::status::success_range;
use crate::text::{decimal, lowercase, occurs_in};
use vstd::prelude::*;

verus! {

/// How many requests an invocation in `state` may still send.
pub open spec fn requests_left(state: StateView) -> nat {
    match state {
        StateView::AwaitKey { .. } => 1,
        StateView::AwaitFile { .. } => 1,
        _ => 0,
    }
}

/// Whether the credential that `state` holds, if it holds one, is not empty.
pub open spec fn holds_credential(state: StateView) -> bool {
    state matches StateView::AwaitFile { credential, .. } ==> credential.len() > 0
}

/// An operator that names no operation ends the invocation at once: the
/// operator is told the usage text, and nothing is loaded, read or sent.
/// `operator` is the operator in lower case.
pub proof fn unknown_operator_prints_usage(
    base_url: Seq<char>,
    operator: Seq<char>,
    args: Seq<Seq<char>>,
)
    requires
        args.len() < 2 || operation_named(operator) is None,
    ensures
        start_model(base_url, command_for(operator, args)).state == StateView::Done,
        start_model(base_url, command_for(operator, args)).action == (ActionView::Finish {
            ending: Ending::UsageError,
        }),
        start_model(base_url, command_for(operator, args)).lines.len() == 9,
        start_model(base_url, command_for(operator, args)).lines.skip(1) == usage(),
        args.len() < 2 || operator == lowercase(args[1]) ==> begin_model(base_url, args)
            == start_model(base_url, command_for(operator, args)),
{
    let step = start_model(base_url, command_for(operator, args));
    assert(step.lines.skip(1) =~= usage());
}

/// A command that needs the credential asks for the key file first, and
/// where none is stored it ends with the advice to generate a key: no
/// request is sent. `content` is what the key file holds, `None` for a file
/// that does not exist.
pub proof fn missing_credential_sends_nothing(
    base_url: Seq<char>,
    command: CommandView,
    content: Option<Seq<char>>,
)
    requires
        requires_authorization(command),
        stored_credential(content) is None,
    ensures
        start_model(base_url, command) == (StepView {
            state: StateView::AwaitKey { command },
            lines: seq![],
            action: ActionView::LoadKey,
        }),
        key_model(base_url, command, Ok(content)) == finish(
            seq![missing_credential_message()],
            Ending::CredentialError,
        ),
        step_model(base_url, StateView::AwaitKey { command }, EventView::KeyMissing) == Some(
            finish(seq![missing_credential_message()], Ending::CredentialError),
        ),
{
}

/// An invocation sends at most one request: a step that sends leaves none
/// to send, and no step brings one back.
pub proof fn at_most_one_request(base_url: Seq<char>, state: StateView, event: EventView)
    ensures
        step_model(base_url, state, event) matches Some(next) ==> {
            &&& requests_left(next.state) <= requests_left(state)
            &&& next.action is Send ==> requests_left(state) == 1 && requests_left(next.state)
                == 0
        },
{
}

/// The first step either sends the one request or leaves it to a later
/// step, and it sends only where no credential is needed.
pub proof fn first_step_sends_at_most_once(base_url: Seq<char>, command: CommandView)
    ensures
        start_model(base_url, command).action is Send ==> requests_left(
            start_model(base_url, command).state,
        ) == 0,
        start_model(base_url, command).action is Send ==> !needs_credential(command),
{
}

/// The credential that goes out in a request is never empty, and a request
/// that needs authorization never goes out without one.
pub proof fn requests_carry_credential(base_url: Seq<char>, state: StateView, event: EventView)
    requires
        holds_credential(state),
    ensures
        step_model(base_url, state, event) matches Some(next) ==> {
            &&& holds_credential(next.state)
            &&& next.action matches ActionView::Send { request } ==> {
                &&& request.api_key matches Some(key) ==> key.len() > 0
                &&& next.state matches StateView::AwaitStatus { command } ==> (
                requires_authorization(command) ==> request.api_key is Some)
            }
        },
{
}

/// The first step holds no credential and sends none.
pub proof fn first_step_carries_no_credential(base_url: Seq<char>, command: CommandView)
    ensures
        holds_credential(start_model(base_url, command).state),
        start_model(base_url, command).action matches ActionView::Send { request }
            ==> request.api_key is None,
{
}

/// An invocation that is over stays over, and a step whose action is to
/// finish leaves the invocation over.
pub proof fn finish_is_final(base_url: Seq<char>, state: StateView, event: EventView)
    ensures
        step_model(base_url, StateView::Done, event) is None,
        step_model(base_url, state, event) matches Some(next) ==> (next.action is Finish
            <==> next.state is Done),
{
}

/// An upload sends one multipart POST to the target's path. Its single part
/// is the field `file`; it holds the bytes that were read, all of them, and
/// announces the target name.
pub proof fn upload_sends_the_file(
    base_url: Seq<char>,
    source_path: Seq<char>,
    target_name: Seq<char>,
    credential: Seq<char>,
    bytes: Seq<u8>,
)
    ensures
        ({
            let command = CommandView::Upload { source_path, target_name };
            step_model(
                base_url,
                StateView::AwaitFile { command, credential },
                EventView::FileContent { bytes },
            ) == Some(
                StepView {
                    state: StateView::AwaitStatus { command },
                    lines: seq!["Uploading "@ + source_path + "..."@],
                    action: ActionView::Send {
                        request: RequestView {
                            method: Method::Post,
                            url: base_url + "/"@ + target_name,
                            api_key: Some(credential),
                            file: Some(
                                FilePartView {
                                    field: "file"@,
                                    file_name: target_name,
                                    content: bytes,
                                },
                            ),
                        },
                    },
                },
            )
        }),
{
}

/// A response outside the success range ends the invocation with a report
/// that shows the status code in its first line and, where the body is not
/// empty, the body in its second. Nothing is written to disk.
pub proof fn failure_shows_status_and_body(
    base_url: Seq<char>,
    command: CommandView,
    status: u16,
    text: Seq<char>,
)
    requires
        command.operation() is Some,
        !success_range(status),
    ensures
        step_model(
            base_url,
            StateView::AwaitBody { command, status },
            EventView::BodyText { text },
        ) matches Some(step) && {
            &&& step.state == StateView::Done
            &&& step.action == ActionView::Finish { ending: Ending::ProtocolError }
            &&& step.lines.len() >= 1
            &&& occurs_in(decimal(status as nat), step.lines[0])
            &&& text.len() > 0 ==> step.lines.len() == 2 && occurs_in(text, step.lines[1])
        },
{
    let body = if text.len() > 0 {
        Some(text)
    } else {
        None
    };
    lemma_failure_lines_hold(command.operation()->0, status, body);
}

/// Only a success leaves anything to do on disk, and only a success counts
/// as completed.
pub proof fn only_success_has_effect(
    base_url: Seq<char>,
    command: CommandView,
    result: OperationResultView,
)
    requires
        !(result is Success),
    ensures
        report_model(base_url, command, result).effect == EffectView::Nothing,
        report_model(base_url, command, result).ending != Ending::Completed,
{
}

/// A key check prints the service's message and stores the checked key if
/// and only if the message declares it valid.
pub proof fn key_check_stores_valid_key_only(
    base_url: Seq<char>,
    key: Seq<char>,
    message: Seq<char>,
)
    ensures
        ({
            let report = report_model(
                base_url,
                CommandView::CheckKey { key: Some(key) },
                OperationResultView::Success { payload: PayloadView::Message { message } },
            );
            &&& report.lines == seq![message]
            &&& message == valid_message() ==> report.effect == EffectView::SaveKey { key }
            &&& message != valid_message() ==> report.effect == EffectView::Nothing
        }),
{
}

/// Key generation prints the new key and stores it, whatever it is.
pub proof fn generated_key_is_stored(base_url: Seq<char>, key: Seq<char>)
    ensures
        ({
            let report = report_model(
                base_url,
                CommandView::GenerateKey,
                OperationResultView::Success { payload: PayloadView::Key { key } },
            );
            &&& report.lines == seq!["New API key generated: "@ + key]
            &&& report.effect == EffectView::SaveKey { key }
        }),
{
}

/// A download writes exactly the bytes of the response, to the target where
/// one is named and else under the file's own name.
pub proof fn download_writes_the_body(
    base_url: Seq<char>,
    file_name: Seq<char>,
    target_name: Option<Seq<char>>,
    bytes: Seq<u8>,
)
    ensures
        report_model(
            base_url,
            CommandView::Download { file_name, target_name },
            OperationResultView::Success { payload: PayloadView::Content { bytes } },
        ).effect == (EffectView::WriteFile {
            path: match target_name {
                Some(target_name) => target_name,
                None => file_name,
            },
            content: bytes,
        }),
{
}

/// A listing and a search print one heading and then every name, each on a
/// line of its own and in the order in which the service gave them; without
/// names they print one line and no name.
pub proof fn names_are_printed_in_order(names: Seq<Seq<char>>, query: Seq<char>)
    ensures
        list_lines(names).len() == (if names.len() == 0 {
            1
        } else {
            names.len() + 1
        }),
        search_lines(names, query).len() == list_lines(names).len(),
        names.len() == 0 ==> list_lines(names) == seq!["No files found."@],
        names.len() == 0 ==> search_lines(names, query) == seq![
            "No files found matching '"@ + query + "'."@,
        ],
        forall|at: int|
            0 <= at < names.len() ==> #[trigger] list_lines(names)[at + 1] == "  - "@ + names[at],
        forall|at: int|
            0 <= at < names.len() ==> #[trigger] search_lines(names, query)[at + 1] == "  - "@
                + names[at],
{
    assert(bullets(names).len() == names.len());
}

} // verus!
