use quiet::process::stdout::{get_line_types, get_stdout_lines, line_type, LineType, RunState};

const GREY: &str = "\x1b[38;2;133;138;118m";
const RESET: &str = "\x1b[0m";

fn marker() -> String {
    format!("{}stdout:{}", GREY, RESET)
}

fn reformat(lines: &[&str]) -> Vec<String> {
    get_stdout_lines(get_line_types(lines.iter().map(|l| l.to_string()).collect()))
}

#[test]
fn classifies_each_rule() {
    assert_eq!(line_type(String::new()), LineType::Empty);
    assert_eq!(line_type("failures:".to_string()), LineType::Failures("failures:".to_string()));
    let failed = "test result: FAILED. 7 passed; 1 failed";
    assert_eq!(line_type(failed.to_string()), LineType::TestResultFailed(failed.to_string()));
    let ok = "test result: ok. 3 passed";
    assert_eq!(line_type(ok.to_string()), LineType::TestResultOk(ok.to_string()));
    assert_eq!(line_type("....".to_string()), LineType::TestDots("....".to_string()));
    let finished = "    Finished dev [unoptimized] target(s)";
    assert_eq!(line_type(finished.to_string()), LineType::Finished(finished.to_string()));
    let compiling = "   Compiling quiet v0.1.0";
    assert_eq!(line_type(compiling.to_string()), LineType::Compiling(compiling.to_string()));
    let error = "error: could not compile `x`";
    assert_eq!(line_type(error.to_string()), LineType::Error(error.to_string()));
    let warning = "warning: unused import";
    assert_eq!(line_type(warning.to_string()), LineType::Warning(warning.to_string()));
    let running = "     Running unittests src/lib.rs";
    assert_eq!(line_type(running.to_string()), LineType::Running(running.to_string()));
    let pass = "test a::b ... ok";
    assert_eq!(line_type(pass.to_string()), LineType::SingleTestOk(pass.to_string()));
    let fail = "test a::c ... FAILED";
    assert_eq!(line_type(fail.to_string()), LineType::SingleTestFailed(fail.to_string()));
    let other = "running 3 tests";
    assert_eq!(line_type(other.to_string()), LineType::Unprocessed(other.to_string()));
}

#[test]
fn earlier_rules_win() {
    let both = "test result: ok. ... ok";
    assert_eq!(line_type(both.to_string()), LineType::TestResultOk(both.to_string()));
    let chatter = "  Compiling thing ... ok";
    assert_eq!(line_type(chatter.to_string()), LineType::Compiling(chatter.to_string()));
}

#[test]
fn dots_must_be_only_dots() {
    assert_eq!(line_type(".".to_string()), LineType::TestDots(".".to_string()));
    assert_eq!(line_type("..a".to_string()), LineType::Unprocessed("..a".to_string()));
    assert_eq!(line_type("a".to_string()), LineType::Unprocessed("a".to_string()));
    assert_eq!(line_type(". .".to_string()), LineType::Unprocessed(". .".to_string()));
}

#[test]
fn fifty_passes_fold_into_one_line_of_dots() {
    let cases: Vec<String> = (0..50).map(|n| format!("case_{} ... ok", n)).collect();
    let mut lines: Vec<&str> = cases.iter().map(|s| s.as_str()).collect();
    lines.push("test result: ok. 50 passed");
    let out = reformat(&lines);
    assert_eq!(out.len(), 1);
    let expected = format!(
        "\x1b[32m{}{}\n{} test result: \x1b[32mok{}. 50 passed",
        ".".repeat(50),
        RESET,
        marker(),
        RESET
    );
    assert_eq!(out[0], expected);
    let first_line = out[0].split('\n').next().unwrap();
    assert_eq!(first_line.matches('.').count(), 50);
    assert!(!out[0].contains("case_"));
}

#[test]
fn passes_after_a_summary_start_a_new_count() {
    let out = reformat(&[
        "a ... ok",
        "test result: ok. 1 passed",
        "b ... ok",
        "c ... ok",
        "test result: ok. 2 passed",
    ]);
    assert_eq!(out.len(), 2);
    assert!(out[0].starts_with(&format!("\x1b[32m.{}\n", RESET)));
    assert!(out[1].starts_with(&format!("\x1b[32m..{}\n", RESET)));
}

#[test]
fn summary_without_passes_has_no_dots() {
    let out = reformat(&["test result: ok. 0 passed"]);
    assert_eq!(out, vec![format!("{} test result: \x1b[32mok{}. 0 passed", marker(), RESET)]);
}

#[test]
fn failures_header_carries_pending_dots() {
    let out = reformat(&["a ... ok", "b ... FAILED", "failures:", "test result: FAILED. 1 passed; 1 failed"]);
    assert_eq!(
        out,
        vec![
            format!("\x1b[31mb ... FAILED{}", RESET),
            format!("\x1b[32m.{}\n{} \x1b[31mfailures:{}", RESET, marker(), RESET),
            format!("{} test result: \x1b[31mFAILED{}. 1 passed; 1 failed", marker(), RESET),
        ]
    );
}

#[test]
fn failed_run_resets_the_count() {
    let out = reformat(&["a ... ok", "test result: FAILED. x", "failures:"]);
    assert_eq!(out.len(), 2);
    assert_eq!(out[1], format!("{} \x1b[31mfailures:{}", marker(), RESET));
}

#[test]
fn suite_header_loses_its_prefix() {
    let out = reformat(&["     Running unittests src/lib.rs"]);
    assert_eq!(out, vec![format!("\n\x1b[33munittests src/lib.rs{}", RESET)]);
}

#[test]
fn chatter_and_empty_lines_vanish() {
    let out = reformat(&["", "   Compiling x v0.1.0", "    Finished dev", "error: aborting", "warning: 1 warning emitted"]);
    assert!(out.is_empty());
}

#[test]
fn other_lines_pass_through_marked() {
    let out = reformat(&["running 3 tests", "..."]);
    assert_eq!(
        out,
        vec![format!("{} running 3 tests", marker()), format!("\x1b[32m...{}", RESET)]
    );
}

#[test]
fn run_state_steps() {
    let mut state = RunState::new();
    assert_eq!(state.step(LineType::SingleTestOk("a ... ok".to_string())), None);
    assert_eq!(state.successes, 1);
    let shown = state.step(LineType::TestResultOk("test result: ok.".to_string()));
    assert_eq!(shown, Some(format!("\x1b[32m.{}\n{} test result: \x1b[32mok{}.", RESET, marker(), RESET)));
    assert_eq!(state.successes, 0);
}

#[test]
fn unicode_white_space_is_trimmed() {
    let line = "\u{3000}\tRunning tests/it.rs";
    assert_eq!(line_type(line.to_string()), LineType::Running(line.to_string()));
    let out = reformat(&[line]);
    assert_eq!(out, vec![format!("\n\x1b[33mtests/it.rs{}", RESET)]);
}

#[test]
fn summary_kinds_without_their_prefix_show_no_rest() {
    let mut state = RunState::new();
    let failed = state.step(LineType::TestResultFailed("odd".to_string()));
    assert_eq!(failed, Some(format!("{} test result: \x1b[31mFAILED{}.", marker(), RESET)));
    let running = state.step(LineType::Running("suite".to_string()));
    assert_eq!(running, Some(format!("\n\x1b[33msuite{}", RESET)));
}

#[test]
fn ok_suffix_needs_the_dots() {
    assert_eq!(line_type("test x ok".to_string()), LineType::Unprocessed("test x ok".to_string()));
    assert_eq!(line_type("... ok".to_string()), LineType::SingleTestOk("... ok".to_string()));
}
