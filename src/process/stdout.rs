//! Plain-text lines of the build output: what kind each one is, and how the
//! report shows them, test runs folded so that each passing case is a dot.
use crate::paint::{muted, muted_tint, paint, painted, Tint};
use crate::text::{
    after_prefix,
    all_full_stops,
    ends_with,
    is_full_stop_run,
    is_prefix,
    is_suffix,
    same_text,
    starts_with,
    strip_prefix,
    trim,
    trimmed,
};
use vstd::prelude::*;

verus! {

/// The kind of a plain-text line, with the line where the report shows it.
#[derive(Clone, Debug, PartialEq, Eq)]
pub enum LineType {
    /// An empty line.
    Empty,
    /// The `failures:` header of a test run.
    Failures(String),
    /// The summary of a test run that failed.
    TestResultFailed(String),
    /// The summary of a test run that passed.
    TestResultOk(String),
    /// A run of progress dots.
    TestDots(String),
    /// Build-tool chatter: `Finished ...`.
    Finished(String),
    /// Build-tool chatter: `Compiling ...`.
    Compiling(String),
    /// Build-tool chatter: `error: ...`, already reported as a diagnostic.
    Error(String),
    /// Build-tool chatter: `warning: ...`, already reported as a diagnostic.
    Warning(String),
    /// The header of a test suite: `Running ...`.
    Running(String),
    /// One test case that passed.
    SingleTestOk(String),
    /// One test case that failed.
    SingleTestFailed(String),
    /// Any other line.
    Unprocessed(String),
}

/// The kind of a line: the first rule that matches, in this order.
pub open spec fn line_type_of(line: String) -> LineType {
    let s = line@;
    if s.len() == 0 {
        LineType::Empty
    } else if s == "failures:"@ {
        LineType::Failures(line)
    } else if is_prefix("test result: FAILED."@, s) {
        LineType::TestResultFailed(line)
    } else if is_prefix("test result: ok."@, s) {
        LineType::TestResultOk(line)
    } else if all_full_stops(s) {
        LineType::TestDots(line)
    } else if is_prefix("Finished "@, trimmed(s)) {
        LineType::Finished(line)
    } else if is_prefix("Compiling "@, trimmed(s)) {
        LineType::Compiling(line)
    } else if is_prefix("error: "@, trimmed(s)) {
        LineType::Error(line)
    } else if is_prefix("warning: "@, trimmed(s)) {
        LineType::Warning(line)
    } else if is_prefix("Running "@, trimmed(s)) {
        LineType::Running(line)
    } else if is_suffix("... ok"@, s) {
        LineType::SingleTestOk(line)
    } else if is_suffix("... FAILED"@, s) {
        LineType::SingleTestFailed(line)
    } else {
        LineType::Unprocessed(line)
    }
}

/// Classifies one plain-text line.
pub fn line_type(line: String) -> (r: LineType)
    ensures
        r == line_type_of(line),
{
    if line.as_str().is_empty() {
        LineType::Empty
    } else if same_text(line.as_str(), "failures:") {
        LineType::Failures(line)
    } else if starts_with(line.as_str(), "test result: FAILED.") {
        LineType::TestResultFailed(line)
    } else if starts_with(line.as_str(), "test result: ok.") {
        LineType::TestResultOk(line)
    } else if is_full_stop_run(line.as_str()) {
        LineType::TestDots(line)
    } else if starts_with(trim(line.as_str()), "Finished ") {
        LineType::Finished(line)
    } else if starts_with(trim(line.as_str()), "Compiling ") {
        LineType::Compiling(line)
    } else if starts_with(trim(line.as_str()), "error: ") {
        LineType::Error(line)
    } else if starts_with(trim(line.as_str()), "warning: ") {
        LineType::Warning(line)
    } else if starts_with(trim(line.as_str()), "Running ") {
        LineType::Running(line)
    } else if ends_with(line.as_str(), "... ok") {
        LineType::SingleTestOk(line)
    } else if ends_with(line.as_str(), "... FAILED") {
        LineType::SingleTestFailed(line)
    } else {
        LineType::Unprocessed(line)
    }
}

/// Classifies every line, in order.
pub fn get_line_types(stdout_lines: Vec<String>) -> (r: Vec<LineType>)
    ensures
        r@ == stdout_lines@.map_values(|l: String| line_type_of(l)),
{
    let ghost s = stdout_lines@;
    let mut types: Vec<LineType> = Vec::new();
    for line in it: stdout_lines.into_iter()
        invariant
            it.seq() == s,
            types@ == s.take(it.index() as int).map_values(|l: String| line_type_of(l)),
    {
        types.push(line_type(line));
        assert(s.take(it.index() + 1).map_values(|l: String| line_type_of(l)) == types@);
    }
    assert(s.take(s.len() as int) == s);
    types
}

/// `n` full stops.
pub open spec fn full_stops(n: nat) -> Seq<char> {
    Seq::new(n, |i: int| '.')
}

/// The dots that stand for `n` passing test cases.
pub open spec fn dots_text(n: nat) -> Seq<char> {
    painted(Tint::Green, full_stops(n))
}

/// The marker in front of passed-through output.
pub open spec fn stdout_marker() -> Seq<char> {
    painted(muted(), "stdout:"@)
}

/// The `failures:` header, after the dots of the cases that passed before it.
pub open spec fn failures_text(successes: nat, line: Seq<char>) -> Seq<char> {
    let header = stdout_marker() + " "@ + painted(Tint::Red, line);
    if successes > 0 {
        dots_text(successes) + "\n"@ + header
    } else {
        header
    }
}

/// The summary of a failed test run, `FAILED` in red.
pub open spec fn failed_run_text(line: Seq<char>) -> Seq<char> {
    stdout_marker() + " "@ + "test result: "@ + painted(Tint::Red, "FAILED"@) + "."@ + after_prefix(
        "test result: FAILED."@,
        line,
    )
}

/// The summary of a passed test run, `ok` in green, after the dots of the
/// cases that passed in it.
pub open spec fn passed_run_text(successes: nat, line: Seq<char>) -> Seq<char> {
    let summary = stdout_marker() + " "@ + "test result: "@ + painted(Tint::Green, "ok"@) + "."@
        + after_prefix("test result: ok."@, line);
    if successes > 0 {
        dots_text(successes) + "\n"@ + summary
    } else {
        summary
    }
}

/// The name of a test suite, on a line of its own after a blank one.
pub open spec fn suite_text(line: Seq<char>) -> Seq<char> {
    let name = if is_prefix("Running "@, trimmed(line)) {
        after_prefix("Running "@, trimmed(line))
    } else {
        line
    };
    "\n"@ + painted(Tint::Yellow, name)
}

/// The count of passing cases after a line of the given kind.
pub open spec fn next_successes(successes: nat, line_type: LineType) -> nat {
    match line_type {
        LineType::TestResultFailed(_) => 0,
        LineType::TestResultOk(_) => 0,
        LineType::SingleTestOk(_) => successes + 1,
        _ => successes,
    }
}

/// What the report shows for a line of the given kind, if anything.
pub open spec fn shown_for(successes: nat, line_type: LineType) -> Option<Seq<char>> {
    match line_type {
        LineType::Empty => None,
        LineType::Failures(l) => Some(failures_text(successes, l@)),
        LineType::TestResultFailed(l) => Some(failed_run_text(l@)),
        LineType::TestResultOk(l) => Some(passed_run_text(successes, l@)),
        LineType::TestDots(l) => Some(painted(Tint::Green, l@)),
        LineType::Finished(_) => None,
        LineType::Compiling(_) => None,
        LineType::Error(_) => None,
        LineType::Warning(_) => None,
        LineType::Running(l) => Some(suite_text(l@)),
        LineType::SingleTestOk(_) => None,
        LineType::SingleTestFailed(l) => Some(painted(Tint::Red, l@)),
        LineType::Unprocessed(l) => Some(stdout_marker() + " "@ + l@),
    }
}

/// The count of passing cases not yet shown, after the lines of `s`.
pub open spec fn successes_after(s: Seq<LineType>) -> nat
    decreases s.len(),
{
    if s.len() == 0 {
        0
    } else {
        next_successes(successes_after(s.drop_last()), s.last())
    }
}

/// What the report shows for the lines of `s`, in order.
pub open spec fn reformatted(s: Seq<LineType>) -> Seq<Seq<char>>
    decreases s.len(),
{
    if s.len() == 0 {
        seq![]
    } else {
        match shown_for(successes_after(s.drop_last()), s.last()) {
            Some(out) => reformatted(s.drop_last()).push(out),
            None => reformatted(s.drop_last()),
        }
    }
}

/// The texts of a sequence of strings.
pub open spec fn texts(v: Seq<String>) -> Seq<Seq<char>> {
    v.map_values(|x: String| x@)
}

/// The text of an optional string.
pub open spec fn text_of(o: Option<String>) -> Option<Seq<char>> {
    match o {
        Some(x) => Some(x@),
        None => None,
    }
}

fn full_stop_text(n: usize) -> (r: String)
    ensures
        r@ == full_stops(n as nat),
{
    let mut r = String::new();
    let mut i: usize = 0;
    while i < n
        invariant
            i <= n,
            r@ == full_stops(i as nat),
        decreases n - i,
    {
        proof {
            reveal_strlit(".");
        }
        r.append(".");
        i = i + 1;
        assert(r@ =~= full_stops(i as nat));
    }
    r
}

fn success_dots_string(successes: usize) -> (r: Option<String>)
    ensures
        successes > 0 ==> r is Some && r->0@ == dots_text(successes as nat),
        successes == 0 ==> r is None,
{
    if successes > 0 {
        let dots = full_stop_text(successes);
        Some(paint(Tint::Green, dots.as_str()))
    } else {
        None
    }
}

fn stdout_marker_string() -> (r: String)
    ensures
        r@ == stdout_marker(),
{
    paint(muted_tint(), "stdout:")
}

fn failure_line_string(line: &str, successes: usize) -> (r: String)
    ensures
        r@ == failures_text(successes as nat, line@),
{
    let header = stdout_marker_string().concat(" ").concat(paint(Tint::Red, line).as_str());
    match success_dots_string(successes) {
        Some(dots) => dots.concat("\n").concat(header.as_str()),
        None => header,
    }
}

fn test_failure_string(line: &str) -> (r: String)
    ensures
        r@ == failed_run_text(line@),
{
    let rest = match strip_prefix(line, "test result: FAILED.") {
        Some(rest) => rest,
        None => "",
    };
    proof {
        reveal_strlit("");
    }
    stdout_marker_string().concat(" ").concat("test result: ").concat(
        paint(Tint::Red, "FAILED").as_str(),
    ).concat(".").concat(rest)
}

fn test_success_string(line: &str, successes: usize) -> (r: String)
    ensures
        r@ == passed_run_text(successes as nat, line@),
{
    let rest = match strip_prefix(line, "test result: ok.") {
        Some(rest) => rest,
        None => "",
    };
    proof {
        reveal_strlit("");
    }
    let summary = stdout_marker_string().concat(" ").concat("test result: ").concat(
        paint(Tint::Green, "ok").as_str(),
    ).concat(".").concat(rest);
    match success_dots_string(successes) {
        Some(dots) => dots.concat("\n").concat(summary.as_str()),
        None => summary,
    }
}

fn test_name_string(line: &str) -> (r: String)
    ensures
        r@ == suite_text(line@),
{
    let name = match strip_prefix(trim(line), "Running ") {
        Some(rest) => rest,
        None => line,
    };
    String::from_str("\n").concat(paint(Tint::Yellow, name).as_str())
}

fn default_stdout_string(line: &str) -> (r: String)
    ensures
        r@ == stdout_marker() + " "@ + line@,
{
    stdout_marker_string().concat(" ").concat(line)
}

/// The reformatter's state: how many test cases passed since the last test
/// run summary, not yet shown.
#[derive(Clone, Copy, Debug, PartialEq, Eq, Structural)]
pub struct RunState {
    pub successes: usize,
}

impl RunState {
    pub fn new() -> (r: Self)
        ensures
            r.successes == 0,
    {
        RunState { successes: 0 }
    }

    /// Takes in one classified line: updates the count of passing cases, and
    /// returns what the report shows for the line, if anything.
    pub fn step(&mut self, line_type: LineType) -> (r: Option<String>)
        requires
            old(self).successes < usize::MAX,
        ensures
            final(self).successes == next_successes(old(self).successes as nat, line_type),
            text_of(r) == shown_for(old(self).successes as nat, line_type),
    {
        let successes = self.successes;
        match line_type {
            LineType::Empty => None,
            LineType::Failures(line) => Some(failure_line_string(line.as_str(), successes)),
            LineType::TestResultFailed(line) => {
                self.successes = 0;
                Some(test_failure_string(line.as_str()))
            },
            LineType::TestResultOk(line) => {
                self.successes = 0;
                Some(test_success_string(line.as_str(), successes))
            },
            LineType::TestDots(line) => Some(paint(Tint::Green, line.as_str())),
            LineType::Finished(_) => None,
            LineType::Compiling(_) => None,
            LineType::Error(_) => None,
            LineType::Warning(_) => None,
            LineType::Running(line) => Some(test_name_string(line.as_str())),
            LineType::SingleTestOk(_) => {
                self.successes = successes + 1;
                None
            },
            LineType::SingleTestFailed(line) => Some(paint(Tint::Red, line.as_str())),
            LineType::Unprocessed(line) => Some(default_stdout_string(line.as_str())),
        }
    }
}

/// Folds the classified lines into what the report shows for them, in order.
pub fn get_stdout_lines(line_types: Vec<LineType>) -> (r: Vec<String>)
    ensures
        texts(r@) == reformatted(line_types@),
{
    let ghost s = line_types@;
    let count = line_types.len();
    let mut state = RunState::new();
    let mut shown: Vec<String> = Vec::new();
    for line_type in it: line_types.into_iter()
        invariant
            it.seq() == s,
            state.successes == successes_after(s.take(it.index() as int)),
            state.successes <= it.index(),
            it.index() <= s.len(),
            s.len() == count,
            texts(shown@) == reformatted(s.take(it.index() as int)),
    {
        let ghost prefix = s.take(it.index() as int);
        assert(s.take(it.index() + 1).drop_last() == prefix);
        let ghost before = shown@;
        assert(it.index() < s.len());
        match state.step(line_type) {
            Some(out) => {
                shown.push(out);
                assert(texts(shown@) == texts(before).push(out@));
            },
            None => {},
        }
    }
    assert(s.take(s.len() as int) == s);
    shown
}

/// How many times `c` occurs in `s`.
pub open spec fn occurrences(s: Seq<char>, c: char) -> nat
    decreases s.len(),
{
    if s.len() == 0 {
        0
    } else {
        occurrences(s.drop_last(), c) + if s.last() == c {
            1nat
        } else {
            0nat
        }
    }
}

proof fn lemma_occurrences_concat(a: Seq<char>, b: Seq<char>, c: char)
    ensures
        occurrences(a + b, c) == occurrences(a, c) + occurrences(b, c),
    decreases b.len(),
{
    if b.len() > 0 {
        assert((a + b).drop_last() == a + b.drop_last());
        lemma_occurrences_concat(a, b.drop_last(), c);
    } else {
        assert(a + b == a);
    }
}

proof fn lemma_occurrences_full_stops(n: nat)
    ensures
        occurrences(full_stops(n), '.') == n,
    decreases n,
{
    if n > 0 {
        assert(full_stops(n).drop_last() == full_stops((n - 1) as nat));
        lemma_occurrences_full_stops((n - 1) as nat);
    }
}

proof fn lemma_no_occurrences(s: Seq<char>, c: char)
    requires
        forall|i: int| 0 <= i < s.len() ==> s[i] != c,
    ensures
        occurrences(s, c) == 0,
    decreases s.len(),
{
    if s.len() > 0 {
        assert(s.last() == s[s.len() - 1]);
        lemma_no_occurrences(s.drop_last(), c);
    }
}

/// The dots that stand for `n` passing cases hold exactly `n` full stops.
pub proof fn lemma_dots_count(n: nat)
    ensures
        occurrences(dots_text(n), '.') == n,
{
    reveal_strlit("\x1B[32m");
    reveal_strlit("\x1B[0m");
    let open = "\x1B[32m"@;
    let close = "\x1B[0m"@;
    assert(open =~= seq!['\x1B', '[', '3', '2', 'm']);
    assert(close =~= seq!['\x1B', '[', '0', 'm']);
    lemma_no_occurrences(open, '.');
    lemma_no_occurrences(close, '.');
    lemma_occurrences_full_stops(n);
    lemma_occurrences_concat(open, full_stops(n), '.');
    lemma_occurrences_concat(open + full_stops(n), close, '.');
}

proof fn lemma_passes_accumulate(p: Seq<LineType>, oks: Seq<LineType>)
    requires
        forall|i: int| 0 <= i < oks.len() ==> #[trigger] oks[i] is SingleTestOk,
    ensures
        successes_after(p + oks) == successes_after(p) + oks.len(),
        reformatted(p + oks) == reformatted(p),
    decreases oks.len(),
{
    if oks.len() == 0 {
        assert(p + oks == p);
    } else {
        let shorter = oks.drop_last();
        assert(forall|i: int| 0 <= i < shorter.len() ==> #[trigger] shorter[i] == oks[i]);
        lemma_passes_accumulate(p, shorter);
        assert((p + oks).drop_last() == p + shorter);
        assert(oks[oks.len() - 1] is SingleTestOk);
    }
}

/// After a point where no passing case is pending (the start, or a test run
/// summary), `n` passing cases and then the summary of a passed run show as
/// one text: the `n` dots, then the summary. No line is shown for the cases
/// themselves.
pub proof fn lemma_passes_fold_into_dots(p: Seq<LineType>, oks: Seq<LineType>, summary: String)
    requires
        successes_after(p) == 0,
        forall|i: int| 0 <= i < oks.len() ==> #[trigger] oks[i] is SingleTestOk,
    ensures
        reformatted(p + oks + seq![LineType::TestResultOk(summary)]) == reformatted(p).push(
            passed_run_text(oks.len(), summary@),
        ),
        passed_run_text(oks.len(), summary@) == if oks.len() > 0 {
            dots_text(oks.len()) + "\n"@ + after_dots(summary@)
        } else {
            after_dots(summary@)
        },
        occurrences(dots_text(oks.len()), '.') == oks.len(),
{
    lemma_passes_accumulate(p, oks);
    let all = p + oks + seq![LineType::TestResultOk(summary)];
    assert(all.drop_last() == p + oks);
    lemma_dots_count(oks.len());
}

/// The summary text of a passed run, as shown after its dots.
pub open spec fn after_dots(line: Seq<char>) -> Seq<char> {
    stdout_marker() + " "@ + "test result: "@ + painted(Tint::Green, "ok"@) + "."@ + after_prefix(
        "test result: ok."@,
        line,
    )
}

} // verus!
