use quiet::cli::Cli;
use quiet::compiler_message::{
    CompilerMessage, CompilerMessageMessage, CompilerMessageSpan, CompilerMessageTarget,
};
use quiet::process::all_messages::AllMessages;
use quiet::process::compiler_messages::{decode_line, get_matches};
use quiet::process::level_status::LevelStatus;
use quiet::process::all_messages::get_all_messages;
use quiet::process::report::{build_report, compiler_output, start_banner};
use quiet::reason::Reason;

fn report_message(level: &str, rendered: &str) -> CompilerMessage {
    CompilerMessage {
        target: CompilerMessageTarget { name: "x".to_string(), src_path: "a.rs".to_string() },
        message: CompilerMessageMessage {
            rendered: rendered.to_string(),
            code: None,
            level: level.to_string(),
            message: "m".to_string(),
            spans: vec![CompilerMessageSpan {
                file_name: "a.rs".to_string(),
                is_primary: true,
                label: None,
            }],
        },
    }
}

fn options(items: u8, show_warnings: bool) -> Cli {
    Cli { items, show_warnings, file_filter: None }
}

#[test]
fn banner_shows_last_seven_digits_reversed() {
    assert_eq!(start_banner(1234567890123), "\x1b[34m---------- quiet [3210987]----------\x1b[0m");
}

#[test]
fn banner_with_few_digits() {
    assert_eq!(start_banner(42), "\x1b[34m---------- quiet [24]----------\x1b[0m");
    assert_eq!(start_banner(0), "\x1b[34m---------- quiet [0]----------\x1b[0m");
    assert_eq!(start_banner(1000000), "\x1b[34m---------- quiet [0000001]----------\x1b[0m");
}

#[test]
fn status_lines() {
    let both = compiler_output(vec![], LevelStatus { errors: true, warnings: true }, true);
    assert_eq!(both, vec![String::new(), "\n\x1b[31m!!! There are compilation errors and warnings !!!\x1b[0m".to_string()]);
    let errors = compiler_output(vec![], LevelStatus { errors: true, warnings: false }, false);
    assert_eq!(errors[1], "\n\x1b[31m!!! There are compilation errors !!!\x1b[0m");
    let warnings = compiler_output(vec![], LevelStatus { errors: false, warnings: true }, false);
    assert_eq!(warnings[1], "\n\x1b[33m*** No compilation errors (but there are warnings) ***\x1b[0m");
    let clean = compiler_output(vec![], LevelStatus { errors: false, warnings: false }, true);
    assert_eq!(clean[1], "\n\x1b[32m*** No compilation errors (or warnings) ***\x1b[0m");
    let quiet = compiler_output(vec![], LevelStatus { errors: false, warnings: false }, false);
    assert_eq!(quiet[1], "\n\x1b[32m*** No compilation errors ***\x1b[0m");
}

#[test]
fn diagnostic_lines_name_the_source_path() {
    let out = compiler_output(
        vec![report_message("error", "err1"), report_message("error", "err2")],
        LevelStatus { errors: true, warnings: false },
        false,
    );
    assert_eq!(out.len(), 4);
    assert_eq!(out[0], "");
    assert_eq!(out[1], "*** a.rs >>> err1");
    assert_eq!(out[2], "*** a.rs >>> err2");
}

#[test]
fn single_error_record_report() {
    let line = "{\"reason\":\"compiler-message\",\"target\":{\"name\":\"x\",\"src_path\":\"a.rs\"},\"message\":{\"rendered\":\"err1\",\"code\":null,\"level\":\"error\",\"message\":\"m\",\"spans\":[{\"file_name\":\"a.rs\",\"is_primary\":true,\"label\":null}]}}";
    let decoded = decode_line(
        line.to_string(),
        Ok(Reason::new("compiler-message".to_string())),
        Ok(report_message("error", "err1")),
    );
    let all = get_all_messages(get_matches(vec![decoded]));
    let report = build_report(1, all, options(1, false));
    let diagnostics: Vec<&String> = report.iter().filter(|l| l.ends_with(">>> err1")).collect();
    assert_eq!(diagnostics.len(), 1);
    assert_eq!(diagnostics[0], "*** a.rs >>> err1");
    assert!(report.iter().any(|l| l.contains("!!! There are compilation errors !!!")));
}

#[test]
fn build_finished_alone_reports_nothing_but_banners() {
    let decoded = decode_line(
        "{\"reason\":\"build-finished\",\"success\":true}".to_string(),
        Ok(Reason::new("build-finished".to_string())),
        Err("missing field `target`".to_string()),
    );
    let all = get_all_messages(get_matches(vec![decoded]));
    let report = build_report(7, all, options(5, false));
    assert_eq!(
        report,
        vec![
            String::new(),
            "\x1b[34m---------- quiet [7]----------\x1b[0m".to_string(),
            String::new(),
            "\n\x1b[32m*** No compilation errors ***\x1b[0m".to_string(),
        ]
    );
}

#[test]
fn report_sections_come_in_order() {
    let all = AllMessages {
        compiler_messages: vec![
            report_message("warning", "w1"),
            report_message("error", "e1"),
            report_message("error", "e2"),
        ],
        stdout_lines: vec!["running 1 test".to_string(), "t ... ok".to_string(), "test result: ok. 1 passed".to_string()],
        errors: vec!["decode failure".to_string()],
    };
    let report = build_report(21, all, options(2, true));
    let grey = "\x1b[38;2;133;138;118mstdout:\x1b[0m";
    assert_eq!(
        report,
        vec![
            String::new(),
            "\x1b[34m---------- quiet [12]----------\x1b[0m".to_string(),
            "decode failure".to_string(),
            format!("{} running 1 test", grey),
            format!("\x1b[32m.\x1b[0m\n{} test result: \x1b[32mok\x1b[0m. 1 passed", grey),
            String::new(),
            "*** a.rs >>> e1".to_string(),
            "*** a.rs >>> e2".to_string(),
            "\n\x1b[31m!!! There are compilation errors and warnings !!!\x1b[0m".to_string(),
        ]
    );
}

#[test]
fn file_filter_applies_to_the_report() {
    let mut other = report_message("error", "elsewhere");
    other.message.spans[0].file_name = "b.rs".to_string();
    let all = AllMessages {
        compiler_messages: vec![other, report_message("error", "here")],
        stdout_lines: vec![],
        errors: vec![],
    };
    let cli = Cli { items: 5, show_warnings: false, file_filter: Some("a.rs".to_string()) };
    let report = build_report(3, all, cli);
    assert!(report.contains(&"*** a.rs >>> here".to_string()));
    assert!(!report.iter().any(|l| l.contains("elsewhere")));
}
