use quiet::compiler_message::{
    CompilerMessage, CompilerMessageCode, CompilerMessageMessage, CompilerMessageSpan,
    CompilerMessageTarget,
};
use quiet::process::filter::by_filename;
use quiet::process::level_status::{by_level, LevelType};
use quiet::process::limit::by_number;
use quiet::rendered::Rendered;

fn diagnostic(level: &str, rendered: &str, message: &str, files: &[&str]) -> CompilerMessage {
    CompilerMessage {
        target: CompilerMessageTarget {
            name: "x".to_string(),
            src_path: "src/main.rs".to_string(),
        },
        message: CompilerMessageMessage {
            rendered: rendered.to_string(),
            code: Some(CompilerMessageCode {
                code: "E0001".to_string(),
                explanation: None,
            }),
            level: level.to_string(),
            message: message.to_string(),
            spans: files
                .iter()
                .map(|f| CompilerMessageSpan {
                    file_name: f.to_string(),
                    is_primary: true,
                    label: None,
                })
                .collect(),
        },
    }
}

fn renderings(v: &[CompilerMessage]) -> Vec<String> {
    v.iter().map(|cm| cm.message.rendered.clone()).collect()
}

fn run_selection(
    msgs: Vec<CompilerMessage>,
    filter: Option<&str>,
    items: usize,
    show_warnings: bool,
) -> Vec<CompilerMessage> {
    let filtered = by_filename(filter.map(|f| f.to_string()), msgs);
    let info = by_level(filtered);
    by_number(info.level_types, items, show_warnings)
}

fn mixed_input() -> Vec<CompilerMessage> {
    vec![
        diagnostic("warning", "w1", "unused variable", &["src/a.rs"]),
        diagnostic("error", "e1", "mismatched types", &["src/a.rs"]),
        diagnostic("note", "n1", "a note", &["src/a.rs"]),
        diagnostic("warning", "w1", "unused variable", &["src/a.rs"]),
        diagnostic("warning", "w2", "1 warning emitted", &["src/b.rs"]),
        diagnostic("error", "e2", "cannot find type", &["src/b.rs", "src/a.rs"]),
        diagnostic("warning", "w3", "dead code", &["src/b.rs"]),
        diagnostic("error", "e1", "mismatched types", &["src/c.rs"]),
    ]
}

#[test]
fn filter_without_suffix_keeps_everything() {
    let out = by_filename(None, mixed_input());
    assert_eq!(renderings(&out), vec!["w1", "e1", "n1", "w1", "w2", "e2", "w3", "e1"]);
}

#[test]
fn filter_keeps_diagnostics_with_a_matching_span() {
    let out = by_filename(Some("a.rs".to_string()), mixed_input());
    assert_eq!(renderings(&out), vec!["w1", "e1", "n1", "w1", "e2"]);
}

#[test]
fn filter_drops_diagnostics_without_spans() {
    let msgs = vec![
        diagnostic("error", "none", "m", &[]),
        diagnostic("error", "some", "m", &["lib/main.rs"]),
    ];
    let out = by_filename(Some("main.rs".to_string()), msgs);
    assert_eq!(renderings(&out), vec!["some"]);
}

#[test]
fn levels_are_tagged_and_others_dropped() {
    let info = by_level(mixed_input());
    assert_eq!(info.level_types.len(), 7);
    assert!(matches!(&info.level_types[0], LevelType::WarningLevel(cm) if cm.message.rendered == "w1"));
    assert!(matches!(&info.level_types[1], LevelType::ErrorLevel(cm) if cm.message.rendered == "e1"));
    assert!(matches!(&info.level_types[2], LevelType::WarningLevel(cm) if cm.message.rendered == "w1"));
    assert!(info.status.errors);
    assert!(info.status.warnings);
}

#[test]
fn status_without_errors_or_warnings() {
    let info = by_level(vec![diagnostic("help", "h", "m", &["a.rs"])]);
    assert!(info.level_types.is_empty());
    assert!(!info.status.errors);
    assert!(!info.status.warnings);
}

#[test]
fn errors_only_in_order_within_budget() {
    let out = run_selection(mixed_input(), None, 2, false);
    assert_eq!(renderings(&out), vec!["e1", "e2"]);
    let all = run_selection(mixed_input(), None, 10, false);
    assert_eq!(renderings(&all), vec!["e1", "e2", "e1"]);
    assert!(all.iter().all(|cm| cm.message.level == "error"));
}

#[test]
fn zero_budget_shows_nothing() {
    assert!(run_selection(mixed_input(), None, 0, false).is_empty());
    assert!(run_selection(mixed_input(), None, 0, true).is_empty());
}

#[test]
fn warnings_follow_errors_deduplicated() {
    let out = run_selection(mixed_input(), None, 255, true);
    assert_eq!(renderings(&out), vec!["e1", "e2", "w1", "w3"]);
}

#[test]
fn warnings_budget_truncates_after_ordering() {
    let out = run_selection(mixed_input(), None, 3, true);
    assert_eq!(renderings(&out), vec!["e1", "e2", "w1"]);
}

#[test]
fn aggregate_error_is_kept() {
    let msgs = vec![diagnostic("error", "agg", "1 warning emitted", &["a.rs"])];
    let out = run_selection(msgs, None, 5, true);
    assert_eq!(renderings(&out), vec!["agg"]);
}

#[test]
fn equal_renderings_keep_the_first() {
    let msgs = vec![
        diagnostic("warning", "same", "first", &["a.rs"]),
        diagnostic("warning", "same", "second", &["a.rs"]),
    ];
    let out = run_selection(msgs, None, 5, true);
    assert_eq!(out.len(), 1);
    assert_eq!(out[0].message.message, "first");
}

#[test]
fn shown_diagnostics_point_into_the_filtered_file() {
    let out = run_selection(mixed_input(), Some("b.rs"), 255, true);
    assert_eq!(renderings(&out), vec!["e2", "w3"]);
    assert!(out
        .iter()
        .all(|cm| cm.message.spans.iter().any(|s| s.file_name.ends_with("b.rs"))));
}

#[test]
fn selection_is_stable_when_run_again() {
    for show in [false, true] {
        for budget in [0usize, 1, 2, 3, 10] {
            for filter in [None, Some("a.rs")] {
                let once = run_selection(mixed_input(), filter, budget, show);
                let twice = run_selection(once.clone(), filter, budget, show);
                assert_eq!(once, twice);
            }
        }
    }
}

#[test]
fn rendered_compares_renderings_only() {
    let a = Rendered::new(diagnostic("error", "r", "one", &["a.rs"]));
    let b = Rendered::new(diagnostic("warning", "r", "two", &["b.rs"]));
    let c = Rendered::new(diagnostic("error", "other", "one", &["a.rs"]));
    assert!(a == b);
    assert!(a != c);
}
