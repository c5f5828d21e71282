use quiet::compiler_message::{
    CompilerMessage, CompilerMessageMessage, CompilerMessageSpan, CompilerMessageTarget,
};
use quiet::compiler_message_decoding_status::CompilerMessageDecodingStatus;
use quiet::process::all_messages::{get_all_messages, AllMessages};
use quiet::process::compiler_messages::{
    decode_line, get_matches, is_record_line, process_compiler_message, ItemTypes,
};
use quiet::reason::Reason;

fn sample_message(rendered: &str) -> CompilerMessage {
    CompilerMessage {
        target: CompilerMessageTarget { name: "x".to_string(), src_path: "a.rs".to_string() },
        message: CompilerMessageMessage {
            rendered: rendered.to_string(),
            code: None,
            level: "error".to_string(),
            message: "m".to_string(),
            spans: vec![CompilerMessageSpan {
                file_name: "a.rs".to_string(),
                is_primary: true,
                label: None,
            }],
        },
    }
}

#[test]
fn records_start_with_a_brace() {
    assert!(is_record_line("{\"reason\":\"x\"}"));
    assert!(!is_record_line(" {"));
    assert!(!is_record_line(""));
}

#[test]
fn plain_line_is_stdout() {
    let r = decode_line("hello".to_string(), Err("bad".to_string()), Err("bad".to_string()));
    assert_eq!(r, Ok(CompilerMessageDecodingStatus::StdOutLine("hello".to_string())));
}

#[test]
fn compiler_message_record_decodes() {
    let line = "{\"reason\":\"compiler-message\"}";
    let r = decode_line(
        line.to_string(),
        Ok(Reason::new("compiler-message".to_string())),
        Ok(sample_message("err1")),
    );
    assert_eq!(r, Ok(CompilerMessageDecodingStatus::DecodedCompilerMessage(sample_message("err1"))));
}

#[test]
fn build_finished_record_is_ignored() {
    let line = "{\"reason\":\"build-finished\",\"success\":true}";
    let r = decode_line(
        line.to_string(),
        Ok(Reason::new("build-finished".to_string())),
        Err("missing field `target`".to_string()),
    );
    assert_eq!(r, Ok(CompilerMessageDecodingStatus::NoCompilerMessage));
    let items = get_matches(vec![r]);
    assert!(items.is_empty());
    let all = get_all_messages(items);
    assert!(all.compiler_messages.is_empty());
    assert!(all.errors.is_empty());
    assert!(all.stdout_lines.is_empty());
}

#[test]
fn undecodable_envelope_is_reported() {
    let r = process_compiler_message("{oops", Err("key must be a string".to_string()), Ok(sample_message("e")));
    assert_eq!(
        r,
        Err("******************* Failed to decode Reason from this line: \x1b[31m{oops\x1b[0m\ncause: key must be a string".to_string())
    );
}

#[test]
fn undecodable_diagnostic_is_reported() {
    let r = process_compiler_message(
        "{\"reason\":\"compiler-message\"}",
        Ok(Reason::new("compiler-message".to_string())),
        Err("missing field `target`".to_string()),
    );
    assert_eq!(
        r,
        Err("******************* Failed to decode CompilerMessage from this line: \x1b[31m{\"reason\":\"compiler-message\"}\x1b[0m\ncause: missing field `target`".to_string())
    );
}

#[test]
fn other_reason_ignores_a_failed_diagnostic() {
    let r = process_compiler_message("{}", Ok(Reason::new("compiler-artifact".to_string())), Err("x".to_string()));
    assert_eq!(r, Ok(None));
}

#[test]
fn matches_keep_order_and_drop_ignored() {
    let items = get_matches(vec![
        Ok(CompilerMessageDecodingStatus::StdOutLine("one".to_string())),
        Ok(CompilerMessageDecodingStatus::NoCompilerMessage),
        Err("bad".to_string()),
        Ok(CompilerMessageDecodingStatus::DecodedCompilerMessage(sample_message("e"))),
    ]);
    assert_eq!(
        items,
        vec![
            ItemTypes::StdoutLineType("one".to_string()),
            ItemTypes::ErrorType("bad".to_string()),
            ItemTypes::CompilerMessageType(sample_message("e")),
        ]
    );
}

#[test]
fn all_messages_split_into_streams() {
    let all = get_all_messages(vec![
        ItemTypes::StdoutLineType("one".to_string()),
        ItemTypes::CompilerMessageType(sample_message("e1")),
        ItemTypes::ErrorType("bad".to_string()),
        ItemTypes::StdoutLineType("two".to_string()),
        ItemTypes::CompilerMessageType(sample_message("e2")),
    ]);
    assert_eq!(all.stdout_lines, vec!["one".to_string(), "two".to_string()]);
    assert_eq!(all.errors, vec!["bad".to_string()]);
    assert_eq!(all.compiler_messages, vec![sample_message("e1"), sample_message("e2")]);
}

#[test]
fn all_messages_add_one_at_a_time() {
    let mut all = AllMessages::new();
    all.add_stdout_line("l".to_string());
    all.add_error("e".to_string());
    all.add_compiler_message(sample_message("m"));
    assert_eq!(all.stdout_lines, vec!["l".to_string()]);
    assert_eq!(all.errors, vec!["e".to_string()]);
    assert_eq!(all.compiler_messages.len(), 1);
}

#[test]
fn reason_as_text() {
    assert_eq!(Reason::new("build-finished".to_string()).to_text(), "Reason(build-finished)");
}
