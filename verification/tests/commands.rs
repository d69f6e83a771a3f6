use udtool::command::{classify, parse_command, Command, Operation, Reason};
use udtool::report::{announce, banner, print_usage, report_invalid, usage_line};

fn args(tokens: &[&str]) -> Vec<String> {
    tokens.iter().map(|token| token.to_string()).collect()
}

#[test]
fn genkey_is_recognized() {
    assert_eq!(parse_command(&args(&["udtool", "genkey"])), Command::GenerateKey);
}

#[test]
fn operator_is_matched_without_regard_to_case() {
    assert_eq!(parse_command(&args(&["udtool", "LIST"])), Command::List);
    assert_eq!(parse_command(&args(&["udtool", "GenKey"])), Command::GenerateKey);
    assert_eq!(
        parse_command(&args(&["udtool", "SeArCh", "Report"])),
        Command::Search { query: "Report".to_string() }
    );
}

#[test]
fn classify_takes_the_operator_as_given() {
    assert_eq!(classify("list", &args(&["udtool", "LIST"])), Command::List);
    assert_eq!(
        classify("LIST", &args(&["udtool", "LIST"])),
        Command::Invalid { reason: Reason::UnknownOperator { operator: "LIST".to_string() } }
    );
}

#[test]
fn checkkey_takes_an_optional_key() {
    assert_eq!(
        parse_command(&args(&["udtool", "checkkey"])),
        Command::CheckKey { key: None }
    );
    assert_eq!(
        parse_command(&args(&["udtool", "checkkey", "k1"])),
        Command::CheckKey { key: Some("k1".to_string()) }
    );
}

#[test]
fn upload_needs_two_arguments() {
    assert_eq!(
        parse_command(&args(&["udtool", "upload", "a.bin", "b.bin"])),
        Command::Upload { source_path: "a.bin".to_string(), target_name: "b.bin".to_string() }
    );
    assert_eq!(
        parse_command(&args(&["udtool", "upload", "a.bin"])),
        Command::Invalid { reason: Reason::MissingArguments { operation: Operation::Upload } }
    );
    assert_eq!(
        parse_command(&args(&["udtool", "upload"])),
        Command::Invalid { reason: Reason::MissingArguments { operation: Operation::Upload } }
    );
}

#[test]
fn download_search_delete_need_one_argument() {
    assert_eq!(
        parse_command(&args(&["udtool", "download", "a.txt"])),
        Command::Download { file_name: "a.txt".to_string(), target_name: None }
    );
    assert_eq!(
        parse_command(&args(&["udtool", "delete", "a.txt"])),
        Command::Delete { file_name: "a.txt".to_string() }
    );
    assert_eq!(
        parse_command(&args(&["udtool", "download"])),
        Command::Invalid { reason: Reason::MissingArguments { operation: Operation::Download } }
    );
    assert_eq!(
        parse_command(&args(&["udtool", "search"])),
        Command::Invalid { reason: Reason::MissingArguments { operation: Operation::Search } }
    );
    assert_eq!(
        parse_command(&args(&["udtool", "delete"])),
        Command::Invalid { reason: Reason::MissingArguments { operation: Operation::Delete } }
    );
}

#[test]
fn extra_arguments_are_ignored() {
    assert_eq!(parse_command(&args(&["udtool", "list", "more"])), Command::List);
    assert_eq!(
        parse_command(&args(&["udtool", "download", "a.txt", "b.txt"])),
        Command::Download { file_name: "a.txt".to_string(), target_name: None }
    );
}

#[test]
fn missing_operator_is_invalid() {
    assert_eq!(
        parse_command(&args(&["udtool"])),
        Command::Invalid { reason: Reason::MissingOperator }
    );
    assert_eq!(parse_command(&args(&[])), Command::Invalid { reason: Reason::MissingOperator });
}

#[test]
fn unknown_operator_keeps_its_spelling() {
    assert_eq!(
        parse_command(&args(&["udtool", "Frobnicate"])),
        Command::Invalid { reason: Reason::UnknownOperator { operator: "Frobnicate".to_string() } }
    );
    assert_eq!(
        parse_command(&args(&["udtool", ""])),
        Command::Invalid { reason: Reason::UnknownOperator { operator: String::new() } }
    );
}

#[test]
fn operation_names_round_trip() {
    let all = [
        Operation::GenerateKey,
        Operation::CheckKey,
        Operation::Upload,
        Operation::Download,
        Operation::Search,
        Operation::Delete,
        Operation::List,
    ];
    for operation in all {
        assert_eq!(Operation::named(operation.name()), Some(operation));
    }
    assert_eq!(Operation::named("remove"), None);
    assert_eq!(Operation::Upload.arity(), 2);
    assert_eq!(Operation::Search.arity(), 1);
    assert_eq!(Operation::List.arity(), 0);
}

#[test]
fn command_knows_its_operation() {
    assert_eq!(Command::List.operation(), Some(Operation::List));
    assert_eq!(Command::CheckKey { key: None }.operation(), Some(Operation::CheckKey));
    assert_eq!(Command::Invalid { reason: Reason::MissingOperator }.operation(), None);
}

#[test]
fn usage_text_lists_every_operation() {
    let expected = vec![
        "Usage:",
        "  genkey                              - Generate a new API key",
        "  checkkey <api_key>                  - Check if an API key is valid",
        "  upload <file_path> <target_name>    - Upload a file",
        "  download <file_name>                - Download a file",
        "  search <query>                      - Search for files",
        "  delete <file_name>                  - Delete a file",
        "  list                                - List all files",
    ];
    assert_eq!(print_usage(), expected);
}

#[test]
fn invalid_invocations_are_told_the_usage() {
    let missing = report_invalid(&Reason::MissingOperator);
    assert_eq!(missing[0], "Invalid operator");
    assert_eq!(missing[1..], print_usage()[..]);
    let unknown = report_invalid(&Reason::UnknownOperator { operator: "Nope".to_string() });
    assert_eq!(unknown[0], "Invalid operator: Nope");
    assert_eq!(unknown[1..], print_usage()[..]);
    assert_eq!(
        report_invalid(&Reason::MissingArguments { operation: Operation::Upload }),
        vec!["Usage: upload <file_path> <target_name>"]
    );
    assert_eq!(usage_line(Operation::Download), "Usage: download <file_name>");
    assert_eq!(usage_line(Operation::Search), "Usage: search <query>");
    assert_eq!(usage_line(Operation::Delete), "Usage: delete <file_name>");
}

#[test]
fn banner_names_the_version() {
    assert_eq!(banner("1.2.3"), "UDTool v1.2.3 by Ari Cummings");
}

#[test]
fn announcements_name_the_subject() {
    assert_eq!(announce(&Command::GenerateKey), vec!["Generating new API key..."]);
    assert_eq!(announce(&Command::CheckKey { key: None }), vec!["Checking API key..."]);
    assert_eq!(
        announce(&Command::Upload {
            source_path: "./a.bin".to_string(),
            target_name: "b.bin".to_string()
        }),
        vec!["Uploading ./a.bin..."]
    );
    assert_eq!(
        announce(&Command::Download { file_name: "a.txt".to_string(), target_name: None }),
        vec!["Downloading a.txt..."]
    );
    assert_eq!(
        announce(&Command::Search { query: "rep".to_string() }),
        vec!["Searching for rep..."]
    );
    assert_eq!(
        announce(&Command::Delete { file_name: "a.txt".to_string() }),
        vec!["Deleting a.txt..."]
    );
    assert_eq!(announce(&Command::List), vec!["Listing all files..."]);
}
