//! Choosing which diagnostics the report shows, and how many.
use crate::compiler_message::CompilerMessage;
use crate::process::level_status::LevelType;
use crate::text::{contains, occurs_in};
use itertools::Itertools;
use vstd::prelude::*;

verus! {

/// The diagnostics tagged as errors, in their order.
pub open spec fn errors_of(s: Seq<LevelType>) -> Seq<CompilerMessage>
    decreases s.len(),
{
    if s.len() == 0 {
        seq![]
    } else {
        match s.last() {
            LevelType::ErrorLevel(cm) => errors_of(s.drop_last()).push(cm),
            LevelType::WarningLevel(_) => errors_of(s.drop_last()),
        }
    }
}

/// The diagnostics tagged as warnings, in their order.
pub open spec fn warnings_of(s: Seq<LevelType>) -> Seq<CompilerMessage>
    decreases s.len(),
{
    if s.len() == 0 {
        seq![]
    } else {
        match s.last() {
            LevelType::ErrorLevel(_) => warnings_of(s.drop_last()),
            LevelType::WarningLevel(cm) => warnings_of(s.drop_last()).push(cm),
        }
    }
}

/// A warning that only counts other warnings ("N warnings emitted").
pub open spec fn is_aggregate(cm: CompilerMessage) -> bool {
    occurs_in("warning emitted"@, cm.message.message@)
}

/// `s` without its aggregate warnings.
pub open spec fn without_aggregates(s: Seq<CompilerMessage>) -> Seq<CompilerMessage>
    decreases s.len(),
{
    if s.len() == 0 {
        seq![]
    } else if is_aggregate(s.last()) {
        without_aggregates(s.drop_last())
    } else {
        without_aggregates(s.drop_last()).push(s.last())
    }
}

/// Some diagnostic of `s` is rendered as `r`.
pub open spec fn has_rendered(s: Seq<CompilerMessage>, r: Seq<char>) -> bool {
    exists|j: int| 0 <= j < s.len() && #[trigger] s[j].message.rendered@ == r
}

/// `s` with each diagnostic left out whose rendering an earlier one has.
pub open spec fn first_rendered(s: Seq<CompilerMessage>) -> Seq<CompilerMessage>
    decreases s.len(),
{
    if s.len() == 0 {
        seq![]
    } else if has_rendered(s.drop_last(), s.last().message.rendered@) {
        first_rendered(s.drop_last())
    } else {
        first_rendered(s.drop_last()).push(s.last())
    }
}

/// The first `n` elements of `s`, or all of them when there are fewer.
pub open spec fn at_most<T>(s: Seq<T>, n: nat) -> Seq<T> {
    if s.len() <= n {
        s
    } else {
        s.take(n as int)
    }
}

/// The diagnostics that the report shows: without warnings, the first `n`
/// errors; with warnings, the errors and then the warnings other than the
/// aggregate ones, each rendering once, the first `n` of those.
pub open spec fn limited(s: Seq<LevelType>, n: nat, show_warnings: bool) -> Seq<CompilerMessage> {
    if show_warnings {
        at_most(first_rendered(errors_of(s) + without_aggregates(warnings_of(s))), n)
    } else {
        at_most(errors_of(s), n)
    }
}

proof fn lemma_at_most_push<T>(s: Seq<T>, x: T, n: nat)
    ensures
        at_most(s.push(x), n) == if s.len() < n {
            at_most(s, n).push(x)
        } else {
            at_most(s, n)
        },
{
    if s.len() >= n {
        assert(s.push(x).take(n as int) == s.take(n as int));
    }
}

/// Relies on `Itertools::unique_by` from itertools, keyed by the rendered
/// text: it keeps the first diagnostic of each rendering, in their order.
#[verifier::external_body]
fn unique_by_rendered(v: Vec<CompilerMessage>) -> (r: Vec<CompilerMessage>)
    ensures
        r@ == first_rendered(v@),
{
    v.into_iter().unique_by(|cm| cm.message.rendered.clone()).collect()
}

/// Picks the diagnostics to show, at most `items_to_show` of them. Without
/// warnings, the errors in their order. With warnings, all errors before all
/// warnings, each class in its order, aggregate warnings dropped, and only
/// the first diagnostic of each rendering kept.
pub fn by_number(filtered_by_level: Vec<LevelType>, items_to_show: usize, show_warnings: bool) -> (r:
    Vec<CompilerMessage>)
    ensures
        r@ == limited(filtered_by_level@, items_to_show as nat, show_warnings),
{
    let ghost s = filtered_by_level@;
    let ghost n = items_to_show as nat;
    if !show_warnings {
        let mut shown: Vec<CompilerMessage> = Vec::new();
        for lt in it: filtered_by_level.into_iter()
            invariant
                it.seq() == s,
                n == items_to_show,
                shown@ == at_most(errors_of(s.take(it.index() as int)), n),
        {
            let ghost before = errors_of(s.take(it.index() as int));
            assert(s.take(it.index() + 1).drop_last() == s.take(it.index() as int));
            match lt {
                LevelType::ErrorLevel(cm) => {
                    proof {
                        lemma_at_most_push(before, cm, n);
                    }
                    if shown.len() < items_to_show {
                        shown.push(cm);
                    }
                },
                LevelType::WarningLevel(_) => {},
            }
        }
        assert(s.take(s.len() as int) == s);
        shown
    } else {
        let mut errors: Vec<CompilerMessage> = Vec::new();
        let mut warnings: Vec<CompilerMessage> = Vec::new();
        for lt in it: filtered_by_level.into_iter()
            invariant
                it.seq() == s,
                errors@ == errors_of(s.take(it.index() as int)),
                warnings@ == without_aggregates(warnings_of(s.take(it.index() as int))),
        {
            assert(s.take(it.index() + 1).drop_last() == s.take(it.index() as int));
            match lt {
                LevelType::ErrorLevel(cm) => {
                    errors.push(cm);
                },
                LevelType::WarningLevel(cm) => {
                    let ghost w = warnings_of(s.take(it.index() as int));
                    assert(warnings_of(s.take(it.index() + 1)) == w.push(cm));
                    assert(w.push(cm).drop_last() == w);
                    if !contains(cm.message.message.as_str(), "warning emitted") {
                        warnings.push(cm);
                    }
                },
            }
        }
        assert(s.take(s.len() as int) == s);
        errors.append(&mut warnings);
        let mut unique = unique_by_rendered(errors);
        unique.truncate(items_to_show);
        unique
    }
}

} // verus!
