use wechat_cli::commands::send::{resolve_send_content, SendContent};

#[test]
fn test_text_takes_priority_over_stdin() {
    let stdin = "stdin content";
    let result = resolve_send_content(Some("hello"), None, stdin, true);
    assert_eq!(result.unwrap(), SendContent::Text("hello".to_string()));
}

#[test]
fn test_file_takes_priority_over_stdin() {
    let stdin = "stdin content";
    let path = "/tmp/file.txt";
    let result = resolve_send_content(None, Some(path), stdin, true);
    assert_eq!(result.unwrap(), SendContent::File(path.to_string()));
}

#[test]
fn test_stdin_used_when_no_text_or_file_and_pipe() {
    let stdin = "hello from stdin";
    let result = resolve_send_content(None, None, stdin, true);
    assert_eq!(
        result.unwrap(),
        SendContent::Text("hello from stdin".to_string())
    );
}

#[test]
fn test_error_when_no_text_or_file_and_terminal_stdin() {
    let stdin = "";
    let result = resolve_send_content(None, None, stdin, false);
    assert!(result.is_err());
    let err_msg = result.unwrap_err().message();
    assert!(
        err_msg.contains("one of `--text`, `--file`, or piped stdin"),
        "Expected error about requiring text/file/stdin, got: {}",
        err_msg
    );
}

#[test]
fn test_error_when_both_text_and_file() {
    let stdin = "";
    let path = "/tmp/file.txt";
    let result = resolve_send_content(Some("hello"), Some(path), stdin, false);
    assert!(result.is_err());
    let err_msg = result.unwrap_err().message();
    assert!(
        err_msg.contains("cannot be used together"),
        "Expected error about mutually exclusive, got: {}",
        err_msg
    );
}

#[test]
fn test_error_when_stdin_empty() {
    let stdin = "   ";
    let result = resolve_send_content(None, None, stdin, true);
    assert!(result.is_err());
    let err_msg = result.unwrap_err().message();
    assert!(
        err_msg.contains("stdin is empty"),
        "Expected error about empty stdin, got: {}",
        err_msg
    );
}

#[test]
fn stdin_of_unicode_whitespace_is_empty() {
    let result = resolve_send_content(None, None, "\u{3000}\t\n\u{a0}", true);
    assert!(result.unwrap_err().message().contains("stdin is empty"));
}

#[test]
fn stdin_text_is_kept_verbatim() {
    let result = resolve_send_content(None, None, "  padded  \n", true);
    assert_eq!(result.unwrap(), SendContent::Text("  padded  \n".to_string()));
}
