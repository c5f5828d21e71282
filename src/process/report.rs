//! The report: a start banner, the decoding failures, the reformatted plain
//! text, the chosen diagnostics and a closing status line.
use crate::cli::Cli;
use crate::compiler_message::CompilerMessage;
use crate::paint::{digit_char, paint, painted, Tint};
use crate::process::all_messages::AllMessages;
use crate::process::filter::{by_filename, filtered_by_file};
use crate::process::level_status::{by_level, leveled, status_of, LevelStatus};
use crate::process::limit::by_number;
use crate::process::selection::selected;
use crate::process::stdout::{get_line_types, get_stdout_lines, line_type_of, reformatted, texts};
use vstd::prelude::*;

verus! {

/// The first `k` decimal digits of `n`, least significant first: the digits
/// of `n` read from the end.
pub open spec fn reversed_digits(n: nat, k: nat) -> Seq<char>
    decreases k,
{
    if k == 0 {
        seq![]
    } else if n < 10 {
        seq![digit_char(n)]
    } else {
        seq![digit_char(n % 10)] + reversed_digits(n / 10, (k - 1) as nat)
    }
}

/// The start banner: the last seven digits of the start time in
/// milliseconds, reversed, so that two runs on one screen can be told apart.
pub open spec fn start_banner_text(millis: nat) -> Seq<char> {
    painted(Tint::Blue, "---------- quiet ["@ + reversed_digits(millis, 7) + "]----------"@)
}

/// How the report shows a diagnostic: its target's source path, then the
/// compiler's rendering.
pub open spec fn diagnostic_text(cm: CompilerMessage) -> Seq<char> {
    "*** "@ + cm.target.src_path@ + " >>> "@ + cm.message.rendered@
}

/// The closing status line, after a blank line.
pub open spec fn status_text(status: LevelStatus, show_warnings: bool) -> Seq<char> {
    "\n"@ + if status.errors && status.warnings {
        painted(Tint::Red, "!!! There are compilation errors and warnings !!!"@)
    } else if status.errors {
        painted(Tint::Red, "!!! There are compilation errors !!!"@)
    } else if status.warnings {
        painted(Tint::Yellow, "*** No compilation errors (but there are warnings) ***"@)
    } else if show_warnings {
        painted(Tint::Green, "*** No compilation errors (or warnings) ***"@)
    } else {
        painted(Tint::Green, "*** No compilation errors ***"@)
    }
}

/// The diagnostic part of the report: a blank line, one line per
/// diagnostic, the status line.
pub open spec fn compiler_output_texts(
    shown: Seq<CompilerMessage>,
    status: LevelStatus,
    show_warnings: bool,
) -> Seq<Seq<char>> {
    seq![Seq::<char>::empty()] + shown.map_values(|cm: CompilerMessage| diagnostic_text(cm))
        + seq![status_text(status, show_warnings)]
}

/// The whole report for a run that started at `millis`, on the sorted input
/// and with the given options.
pub open spec fn report_of(millis: nat, all: AllMessages, cli: Cli) -> Seq<Seq<char>> {
    let status = status_of(leveled(filtered_by_file(all.compiler_messages@, cli.file_filter)));
    let shown = selected(
        all.compiler_messages@,
        cli.file_filter,
        cli.items as nat,
        cli.show_warnings,
    );
    seq![Seq::<char>::empty(), start_banner_text(millis)] + texts(all.errors@) + reformatted(
        all.stdout_lines@.map_values(|l: String| line_type_of(l)),
    ) + compiler_output_texts(shown, status, cli.show_warnings)
}

fn digit_text(d: u128) -> (r: &'static str)
    requires
        d < 10,
    ensures
        r@ == seq![digit_char(d as nat)],
{
    proof {
        reveal_strlit("0");
        reveal_strlit("1");
        reveal_strlit("2");
        reveal_strlit("3");
        reveal_strlit("4");
        reveal_strlit("5");
        reveal_strlit("6");
        reveal_strlit("7");
        reveal_strlit("8");
        reveal_strlit("9");
    }
    match d {
        0 => "0",
        1 => "1",
        2 => "2",
        3 => "3",
        4 => "4",
        5 => "5",
        6 => "6",
        7 => "7",
        8 => "8",
        _ => "9",
    }
}

/// The start banner for a run that started at `millis` milliseconds after
/// the epoch.
pub fn start_banner(millis: u128) -> (r: String)
    ensures
        r@ == start_banner_text(millis as nat),
{
    let mut id = String::new();
    let mut n: u128 = millis;
    let mut k: usize = 7;
    while k > 0
        invariant
            k <= 7,
            id@ + reversed_digits(n as nat, k as nat) == reversed_digits(millis as nat, 7),
        decreases k,
    {
        let ghost before = id@;
        id.append(digit_text(n % 10));
        if n < 10 {
            assert(id@ + reversed_digits(n as nat, 0) == before + reversed_digits(n as nat, k as nat));
            k = 0;
        } else {
            assert(before + reversed_digits(n as nat, k as nat) == id@ + reversed_digits(
                (n / 10) as nat,
                (k - 1) as nat,
            ));
            n = n / 10;
            k = k - 1;
        }
    }
    assert(id@ + reversed_digits(n as nat, 0) == id@);
    let banner = String::from_str("---------- quiet [").concat(id.as_str()).concat("]----------");
    paint(Tint::Blue, banner.as_str())
}

fn status_string(status: LevelStatus, show_warnings: bool) -> (r: String)
    ensures
        r@ == status_text(status, show_warnings),
{
    let banner = if status.errors && status.warnings {
        paint(Tint::Red, "!!! There are compilation errors and warnings !!!")
    } else if status.errors {
        paint(Tint::Red, "!!! There are compilation errors !!!")
    } else if status.warnings {
        paint(Tint::Yellow, "*** No compilation errors (but there are warnings) ***")
    } else if show_warnings {
        paint(Tint::Green, "*** No compilation errors (or warnings) ***")
    } else {
        paint(Tint::Green, "*** No compilation errors ***")
    };
    String::from_str("\n").concat(banner.as_str())
}

/// The diagnostic part of the report: a blank line, each diagnostic as
/// `*** <source path> >>> <rendering>`, then the status line.
pub fn compiler_output(
    constrained_matches: Vec<CompilerMessage>,
    level_status: LevelStatus,
    show_warnings: bool,
) -> (r: Vec<String>)
    ensures
        texts(r@) == compiler_output_texts(constrained_matches@, level_status, show_warnings),
{
    let ghost s = constrained_matches@;
    let mut lines: Vec<String> = Vec::new();
    lines.push(String::new());
    for cm in it: constrained_matches.into_iter()
        invariant
            it.seq() == s,
            texts(lines@) == seq![Seq::<char>::empty()] + s.take(it.index() as int).map_values(
                |cm: CompilerMessage| diagnostic_text(cm),
            ),
    {
        let line = String::from_str("*** ").concat(cm.target.src_path.as_str()).concat(
            " >>> ",
        ).concat(cm.message.rendered.as_str());
        let ghost before = lines@;
        lines.push(line);
        assert(cm == s[it.index() as int]);
        assert(texts(lines@) =~= texts(before).push(diagnostic_text(cm)));
        assert(s.take(it.index() + 1).map_values(|cm: CompilerMessage| diagnostic_text(cm))
            =~= s.take(it.index() as int).map_values(|cm: CompilerMessage| diagnostic_text(cm)).push(
            diagnostic_text(cm),
        ));
        assert(texts(lines@) =~= seq![Seq::<char>::empty()] + s.take(it.index() + 1).map_values(
            |cm: CompilerMessage| diagnostic_text(cm),
        ));
    }
    assert(s.take(s.len() as int) == s);
    let ghost before = lines@;
    lines.push(status_string(level_status, show_warnings));
    assert(texts(lines@) =~= texts(before).push(status_text(level_status, show_warnings)));
    lines
}

/// Builds the whole report, line by line: the start banner, the decoding
/// failures, the reformatted plain text, then the diagnostics that the
/// options select and the status line.
pub fn build_report(millis: u128, all_messages: AllMessages, cli: Cli) -> (r: Vec<String>)
    ensures
        texts(r@) == report_of(millis as nat, all_messages, cli),
{
    let ghost all = all_messages;
    let AllMessages { compiler_messages, stdout_lines, mut errors } = all_messages;
    let filtered = by_filename(cli.file_filter, compiler_messages);
    let level_info = by_level(filtered);
    let limited = by_number(level_info.level_types, cli.items as usize, cli.show_warnings);
    let mut report: Vec<String> = Vec::new();
    report.push(String::new());
    report.push(start_banner(millis));
    report.append(&mut errors);
    let mut plain = get_stdout_lines(get_line_types(stdout_lines));
    report.append(&mut plain);
    let mut diagnostics = compiler_output(limited, level_info.status, cli.show_warnings);
    report.append(&mut diagnostics);
    assert(texts(report@) =~= report_of(millis as nat, all, cli));
    report
}

} // verus!
