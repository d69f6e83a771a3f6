use udtool::credential::{get_api_key_file, key_file_under, load_api_key, StoreError};
use udtool::status::{is_success, status_line, status_with_reason};
use udtool::text::{characters, decimal_text, same_text, trim, whitespace};

#[test]
fn decimal_numerals() {
    assert_eq!(decimal_text(0), "0");
    assert_eq!(decimal_text(7), "7");
    assert_eq!(decimal_text(10), "10");
    assert_eq!(decimal_text(404), "404");
    assert_eq!(decimal_text(65535), "65535");
    assert_eq!(decimal_text(u64::MAX), "18446744073709551615");
}

#[test]
fn trim_removes_surrounding_white_space_only() {
    assert_eq!(trim("abc123\n"), "abc123");
    assert_eq!(trim("  \t abc 123 \r\n"), "abc 123");
    assert_eq!(trim("abc"), "abc");
    assert_eq!(trim(""), "");
    assert_eq!(trim(" \n\t "), "");
    assert_eq!(trim("\u{a0}k\u{3000}"), "k");
    assert_eq!(trim("\u{200b}k"), "\u{200b}k");
}

#[test]
fn trim_agrees_with_the_standard_library() {
    let samples = ["", " ", "a", " a", "a ", " a b ", "\u{2003}x\u{2028}", "\u{85}y\u{1680}", "é \u{feff}"];
    for sample in samples {
        assert_eq!(trim(sample), sample.trim());
    }
}

#[test]
fn white_space_is_the_unicode_property() {
    for code in 0..0x3100u32 {
        if let Some(c) = char::from_u32(code) {
            assert_eq!(whitespace(c), c.is_whitespace(), "U+{:04X}", code);
        }
    }
}

#[test]
fn texts_compare_by_their_characters() {
    assert!(same_text("list", "list"));
    assert!(!same_text("list", "List"));
    assert!(!same_text("list", "lis"));
    assert_eq!(characters("añb"), vec!['a', 'ñ', 'b']);
}

#[test]
fn success_range_is_2xx() {
    assert!(!is_success(199));
    assert!(is_success(200));
    assert!(is_success(204));
    assert!(is_success(299));
    assert!(!is_success(300));
    assert!(!is_success(404));
    assert!(!is_success(500));
}

#[test]
fn status_is_printed_with_its_reason() {
    assert_eq!(status_line(500), "500 Internal Server Error");
    assert_eq!(status_line(404), "404 Not Found");
    assert_eq!(status_line(200), "200 OK");
    assert_eq!(status_line(599), "599 <unknown status code>");
    assert_eq!(status_line(42), "42 <unknown status code>");
}

#[test]
fn status_with_a_given_reason() {
    assert_eq!(status_with_reason(418, Some("I'm a teapot".to_string())), "418 I'm a teapot");
    assert_eq!(status_with_reason(7, None), "7 <unknown status code>");
}

#[test]
fn stored_credential_is_trimmed() {
    assert_eq!(load_api_key(Ok(Some("abc123\n".to_string()))), Ok("abc123".to_string()));
    assert_eq!(load_api_key(Ok(Some("  k e y  ".to_string()))), Ok("k e y".to_string()));
}

#[test]
fn absent_or_blank_key_file_holds_no_credential() {
    assert_eq!(load_api_key(Ok(None)), Err(StoreError::NotFound));
    assert_eq!(load_api_key(Ok(Some(String::new()))), Err(StoreError::NotFound));
    assert_eq!(load_api_key(Ok(Some(" \n".to_string()))), Err(StoreError::NotFound));
}

#[test]
fn unreadable_key_file_is_an_io_error() {
    assert_eq!(
        load_api_key(Err("permission denied".to_string())),
        Err(StoreError::Io { cause: "permission denied".to_string() })
    );
}

#[test]
fn store_errors_read_as_lines() {
    assert_eq!(
        StoreError::NotFound.message(),
        "API key not found. Use 'genkey' command to generate a new key."
    );
    assert_eq!(
        StoreError::Io { cause: "permission denied".to_string() }.message(),
        "Error: permission denied"
    );
}

#[test]
fn key_file_lies_in_the_application_directory() {
    let base = std::path::PathBuf::from("/home/alice/.config");
    let file = key_file_under(Some(base.clone()));
    assert_eq!(file.base, Some(base));
    assert_eq!(file.names, vec!["UDTool", "api_key.txt"]);
    let bare = key_file_under(None);
    assert_eq!(bare.base, None);
    assert_eq!(bare.names, vec!["api_key.txt"]);
}

#[test]
fn key_file_for_this_user_has_the_fixed_names() {
    let file = get_api_key_file();
    if file.base.is_some() {
        assert_eq!(file.names, vec!["UDTool", "api_key.txt"]);
    } else {
        assert_eq!(file.names, vec!["api_key.txt"]);
    }
}
