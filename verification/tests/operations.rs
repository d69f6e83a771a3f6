use udtool::command::{Command, Operation};
use udtool::outcome::{
    failure_of, key_result, message_result, names_result, success_of, unread, Mismatch,
    OperationResult, Payload,
};
use udtool::report::{
    complete, handle_check_key_success, handle_delete_success, handle_download_success,
    handle_error, handle_failed_action, handle_generate_key_success, handle_list_success,
    handle_mismatch, handle_search_success, handle_success, handle_upload_success, report, Effect,
    Ending, Report,
};
use udtool::request::{
    api_key_header, check_key, delete, download, generate_key, list_files, request_for, search,
    upload, FilePart, Method, Request,
};

const BASE: &str = "https://files.example";

fn names_of(names: &[&str]) -> Vec<String> {
    names.iter().map(|name| name.to_string()).collect()
}

#[test]
fn generate_key_posts_without_credential() {
    assert_eq!(
        generate_key(BASE),
        Request {
            method: Method::Post,
            url: "https://files.example/key/new".to_string(),
            api_key: None,
            file: None
        }
    );
}

#[test]
fn check_key_puts_the_key_in_the_path() {
    assert_eq!(
        check_key(BASE, "k1"),
        Request {
            method: Method::Get,
            url: "https://files.example/key/check/k1".to_string(),
            api_key: None,
            file: None
        }
    );
}

#[test]
fn upload_posts_one_part_named_file() {
    let content = vec![1u8, 2, 3, 4, 5];
    let request = upload(BASE, "secret", "b.bin", content.clone());
    assert_eq!(request.method, Method::Post);
    assert_eq!(request.url, "https://files.example/b.bin");
    assert_eq!(request.api_key, Some("secret".to_string()));
    assert_eq!(
        request.file,
        Some(FilePart { field: "file".to_string(), file_name: "b.bin".to_string(), content })
    );
    assert_eq!(request.file.unwrap().content.len(), 5);
}

#[test]
fn download_search_delete_list_carry_the_credential() {
    assert_eq!(
        download(BASE, "secret", "a.txt"),
        Request {
            method: Method::Get,
            url: "https://files.example/a.txt".to_string(),
            api_key: Some("secret".to_string()),
            file: None
        }
    );
    assert_eq!(
        search(BASE, "secret", "rep"),
        Request {
            method: Method::Get,
            url: "https://files.example/search/rep".to_string(),
            api_key: Some("secret".to_string()),
            file: None
        }
    );
    assert_eq!(
        delete(BASE, "secret", "a.txt"),
        Request {
            method: Method::Delete,
            url: "https://files.example/a.txt".to_string(),
            api_key: Some("secret".to_string()),
            file: None
        }
    );
    assert_eq!(
        list_files(BASE, "secret"),
        Request {
            method: Method::Get,
            url: "https://files.example/list".to_string(),
            api_key: Some("secret".to_string()),
            file: None
        }
    );
    assert_eq!(api_key_header(), "API-Key");
    assert_eq!(udtool::request::service_url(), "https://UDTool.delphigamerz.xyz");
    assert_eq!(udtool::request::REQUEST_TIMEOUT_SECONDS, 7 * 60 * 60);
}

#[test]
fn request_for_follows_the_command() {
    assert_eq!(
        request_for(&Command::List, BASE, "secret", Vec::new()),
        Some(list_files(BASE, "secret"))
    );
    assert_eq!(
        request_for(&Command::CheckKey { key: None }, BASE, "stored", Vec::new()),
        Some(check_key(BASE, "stored"))
    );
    assert_eq!(
        request_for(&Command::CheckKey { key: Some("given".to_string()) }, BASE, "stored", Vec::new()),
        Some(check_key(BASE, "given"))
    );
    assert_eq!(
        request_for(
            &Command::Invalid { reason: udtool::command::Reason::MissingOperator },
            BASE,
            "secret",
            Vec::new()
        ),
        None
    );
}

#[test]
fn failure_keeps_status_and_body() {
    assert_eq!(
        failure_of(500, Some("internal error".to_string())),
        OperationResult::Failure { status: 500, body: Some("internal error".to_string()) }
    );
    assert_eq!(
        failure_of(404, Some(String::new())),
        OperationResult::Failure { status: 404, body: None }
    );
    assert_eq!(failure_of(404, None), OperationResult::Failure { status: 404, body: None });
}

#[test]
fn key_is_read_out_of_the_json_object() {
    assert_eq!(
        success_of(Operation::GenerateKey, b"{\"key\":\"abc123\"}".to_vec()),
        OperationResult::Success { payload: Payload::Key { key: "abc123".to_string() } }
    );
    assert_eq!(
        success_of(Operation::GenerateKey, b"{\"token\":\"abc123\"}".to_vec()),
        OperationResult::DecodeError { mismatch: Mismatch::FieldMissing }
    );
    assert_eq!(
        success_of(Operation::GenerateKey, b"{\"key\":17}".to_vec()),
        OperationResult::DecodeError { mismatch: Mismatch::FieldMissing }
    );
    assert_eq!(
        success_of(Operation::GenerateKey, b"[\"key\"]".to_vec()),
        OperationResult::DecodeError { mismatch: Mismatch::FieldMissing }
    );
    assert_eq!(
        success_of(Operation::GenerateKey, b"<html>".to_vec()),
        OperationResult::DecodeError { mismatch: Mismatch::Malformed }
    );
    assert_eq!(
        success_of(Operation::GenerateKey, Vec::new()),
        OperationResult::DecodeError { mismatch: Mismatch::Malformed }
    );
}

#[test]
fn message_is_read_out_of_the_json_object() {
    assert_eq!(
        success_of(Operation::CheckKey, b"{\"message\":\"Key is valid.\"}".to_vec()),
        OperationResult::Success { payload: Payload::Message { message: "Key is valid.".to_string() } }
    );
    assert_eq!(
        success_of(Operation::CheckKey, b"{\"key\":\"abc\"}".to_vec()),
        OperationResult::DecodeError { mismatch: Mismatch::FieldMissing }
    );
    assert_eq!(
        success_of(Operation::CheckKey, b"not json".to_vec()),
        OperationResult::DecodeError { mismatch: Mismatch::Malformed }
    );
}

#[test]
fn names_are_read_in_array_order() {
    assert_eq!(
        success_of(Operation::List, b"[\"a.txt\",\"b.txt\"]".to_vec()),
        OperationResult::Success { payload: Payload::Names { names: names_of(&["a.txt", "b.txt"]) } }
    );
    assert_eq!(
        success_of(Operation::Search, b"[\"b.txt\",\"a.txt\"]".to_vec()),
        OperationResult::Success { payload: Payload::Names { names: names_of(&["b.txt", "a.txt"]) } }
    );
    assert_eq!(
        success_of(Operation::List, b"[]".to_vec()),
        OperationResult::Success { payload: Payload::Names { names: Vec::new() } }
    );
    assert_eq!(
        success_of(Operation::List, b"[1,2]".to_vec()),
        OperationResult::DecodeError { mismatch: Mismatch::Malformed }
    );
    assert_eq!(
        success_of(Operation::Search, b"{\"files\":[]}".to_vec()),
        OperationResult::DecodeError { mismatch: Mismatch::Malformed }
    );
}

#[test]
fn download_keeps_the_bytes_and_status_only_operations_read_nothing() {
    assert_eq!(
        success_of(Operation::Download, vec![0u8, 159, 146, 150]),
        OperationResult::Success { payload: Payload::Content { bytes: vec![0u8, 159, 146, 150] } }
    );
    assert_eq!(
        success_of(Operation::Upload, b"ignored".to_vec()),
        OperationResult::Success { payload: Payload::Unit }
    );
    assert_eq!(
        success_of(Operation::Delete, Vec::new()),
        OperationResult::Success { payload: Payload::Unit }
    );
}

#[test]
fn decoded_values_become_results() {
    assert_eq!(key_result(None), OperationResult::DecodeError { mismatch: Mismatch::Malformed });
    assert_eq!(
        key_result(Some(None)),
        OperationResult::DecodeError { mismatch: Mismatch::FieldMissing }
    );
    assert_eq!(
        key_result(Some(Some("k".to_string()))),
        OperationResult::Success { payload: Payload::Key { key: "k".to_string() } }
    );
    assert_eq!(message_result(None), OperationResult::DecodeError { mismatch: Mismatch::Malformed });
    assert_eq!(
        message_result(Some(Some("m".to_string()))),
        OperationResult::Success { payload: Payload::Message { message: "m".to_string() } }
    );
    assert_eq!(names_result(None), OperationResult::DecodeError { mismatch: Mismatch::Malformed });
    assert_eq!(
        names_result(Some(names_of(&["a"]))),
        OperationResult::Success { payload: Payload::Names { names: names_of(&["a"]) } }
    );
}

#[test]
fn unread_body_is_a_decode_error_for_the_key_operations() {
    assert_eq!(
        unread(Operation::GenerateKey, "reset".to_string()),
        OperationResult::DecodeError { mismatch: Mismatch::Malformed }
    );
    assert_eq!(
        unread(Operation::CheckKey, "reset".to_string()),
        OperationResult::DecodeError { mismatch: Mismatch::Malformed }
    );
    assert_eq!(
        unread(Operation::Download, "reset".to_string()),
        OperationResult::TransportError { cause: "reset".to_string() }
    );
    assert_eq!(
        unread(Operation::List, "reset".to_string()),
        OperationResult::TransportError { cause: "reset".to_string() }
    );
}

#[test]
fn failure_report_shows_status_and_body_for_every_operation() {
    let labelled = [
        (Operation::GenerateKey, "Key generation"),
        (Operation::CheckKey, "Check"),
        (Operation::Upload, "Upload"),
        (Operation::Download, "Download"),
        (Operation::Search, "Search"),
        (Operation::Delete, "Delete"),
        (Operation::List, "List"),
    ];
    for (operation, label) in labelled {
        let lines = handle_error(operation, 500, &Some("internal error".to_string()));
        assert_eq!(
            lines,
            vec![
                format!("{} failed with status: 500 Internal Server Error", label),
                "Server response: internal error".to_string()
            ]
        );
        assert!(lines[0].contains("500"));
        assert!(lines[1].contains("internal error"));
    }
}

#[test]
fn failure_report_omits_an_empty_body() {
    assert_eq!(
        handle_error(Operation::Download, 404, &None),
        vec!["Download failed with status: 404 Not Found"]
    );
    assert_eq!(
        handle_error(Operation::Download, 404, &Some(String::new())),
        vec!["Download failed with status: 404 Not Found"]
    );
}

#[test]
fn other_failures_read_as_lines() {
    assert_eq!(handle_failed_action("connection refused"), vec!["Error: connection refused"]);
    assert_eq!(
        handle_mismatch(Operation::List, Mismatch::Malformed),
        vec!["Could not parse response."]
    );
    assert_eq!(
        handle_mismatch(Operation::GenerateKey, Mismatch::FieldMissing),
        vec!["Could not extract key from response."]
    );
    assert_eq!(handle_mismatch(Operation::CheckKey, Mismatch::FieldMissing), Vec::<String>::new());
}

#[test]
fn generated_key_is_printed_and_stored() {
    assert_eq!(
        handle_generate_key_success("abc123".to_string()),
        Report {
            lines: vec!["New API key generated: abc123".to_string()],
            effect: Effect::SaveKey { key: "abc123".to_string() }, ending: Ending::Completed
        }
    );
}

#[test]
fn checked_key_is_stored_only_when_valid() {
    assert_eq!(
        handle_check_key_success("Key is valid.".to_string(), Some("k1".to_string())),
        Report {
            lines: vec!["Key is valid.".to_string()],
            effect: Effect::SaveKey { key: "k1".to_string() }, ending: Ending::Completed
        }
    );
    assert_eq!(
        handle_check_key_success("Key is invalid.".to_string(), Some("k1".to_string())),
        Report { lines: vec!["Key is invalid.".to_string()], effect: Effect::Nothing, ending: Ending::Completed }
    );
    assert_eq!(
        handle_check_key_success("key is valid.".to_string(), Some("k1".to_string())),
        Report { lines: vec!["key is valid.".to_string()], effect: Effect::Nothing, ending: Ending::Completed }
    );
    assert_eq!(
        handle_check_key_success("Key is valid.".to_string(), None),
        Report { lines: vec!["Key is valid.".to_string()], effect: Effect::Nothing, ending: Ending::Completed }
    );
}

#[test]
fn upload_and_delete_reports() {
    assert_eq!(
        handle_upload_success(BASE, "b.bin"),
        vec!["File successfully uploaded.", "File URL: https://files.example/b.bin"]
    );
    assert_eq!(handle_delete_success("a.txt"), vec!["File 'a.txt' successfully deleted."]);
}

#[test]
fn download_report_writes_the_bytes() {
    assert_eq!(
        handle_download_success("a.txt".to_string(), None, vec![1, 2, 3]),
        Report {
            lines: Vec::new(),
            effect: Effect::WriteFile { path: "a.txt".to_string(), content: vec![1, 2, 3] }, ending: Ending::Completed
        }
    );
    assert_eq!(
        handle_download_success("a.txt".to_string(), Some("copy.txt".to_string()), vec![1]),
        Report {
            lines: Vec::new(),
            effect: Effect::WriteFile { path: "copy.txt".to_string(), content: vec![1] }, ending: Ending::Completed
        }
    );
}

#[test]
fn search_report_lists_names_in_order() {
    assert_eq!(
        handle_search_success(&names_of(&["a.txt", "b.txt"]), "txt"),
        vec!["Found 2 file(s):", "  - a.txt", "  - b.txt"]
    );
    assert_eq!(
        handle_search_success(&Vec::new(), "txt"),
        vec!["No files found matching 'txt'."]
    );
    let many: Vec<String> = (0..12).map(|at| format!("f{}", at)).collect();
    let lines = handle_search_success(&many, "f");
    assert_eq!(lines.len(), 13);
    assert_eq!(lines[0], "Found 12 file(s):");
    assert_eq!(lines[12], "  - f11");
}

#[test]
fn list_report_lists_names_in_order() {
    assert_eq!(
        handle_list_success(&names_of(&["a.txt", "b.txt"])),
        vec!["Files:", "  - a.txt", "  - b.txt"]
    );
    assert_eq!(handle_list_success(&Vec::new()), vec!["No files found."]);
}

#[test]
fn payload_of_another_kind_is_not_parsed() {
    assert_eq!(
        handle_success(Command::List, BASE, Payload::Unit),
        Report { lines: vec!["Could not parse response.".to_string()], effect: Effect::Nothing, ending: Ending::DecodeError }
    );
    assert_eq!(
        handle_success(Command::GenerateKey, BASE, Payload::Message { message: "m".to_string() }),
        Report { lines: vec!["Could not parse response.".to_string()], effect: Effect::Nothing, ending: Ending::DecodeError }
    );
}

#[test]
fn report_follows_the_result() {
    assert_eq!(
        report(
            Command::Delete { file_name: "a.txt".to_string() },
            BASE,
            OperationResult::Success { payload: Payload::Unit }
        ),
        Report {
            lines: vec!["File 'a.txt' successfully deleted.".to_string()],
            effect: Effect::Nothing, ending: Ending::Completed
        }
    );
    assert_eq!(
        report(
            Command::Delete { file_name: "a.txt".to_string() },
            BASE,
            OperationResult::Failure { status: 403, body: Some("no".to_string()) }
        ),
        Report {
            lines: vec![
                "Delete failed with status: 403 Forbidden".to_string(),
                "Server response: no".to_string()
            ],
            effect: Effect::Nothing, ending: Ending::ProtocolError
        }
    );
    assert_eq!(
        report(
            Command::List,
            BASE,
            OperationResult::TransportError { cause: "timed out".to_string() }
        ),
        Report { lines: vec!["Error: timed out".to_string()], effect: Effect::Nothing, ending: Ending::TransportError }
    );
    assert_eq!(
        report(
            Command::List,
            BASE,
            OperationResult::DecodeError { mismatch: Mismatch::Malformed }
        ),
        Report { lines: vec!["Could not parse response.".to_string()], effect: Effect::Nothing, ending: Ending::DecodeError }
    );
}

#[test]
fn completion_lines() {
    assert_eq!(complete(&Command::GenerateKey), vec!["API key saved successfully."]);
    assert_eq!(
        complete(&Command::CheckKey { key: Some("k".to_string()) }),
        vec!["API key saved successfully."]
    );
    assert_eq!(
        complete(&Command::Download { file_name: "a.txt".to_string(), target_name: None }),
        vec!["Downloaded a.txt successfully."]
    );
    assert_eq!(complete(&Command::List), Vec::<String>::new());
}
