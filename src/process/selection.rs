//! The diagnostic pipeline as one mathematical function, and what holds of
//! every diagnostic list that it produces.
use crate::compiler_message::CompilerMessage;
use crate::process::filter::{filtered_by_file, only_in_file, points_into};
use crate::process::level_status::{is_error, is_warning, leveled, LevelType};
use crate::process::limit::{
    at_most,
    errors_of,
    first_rendered,
    has_rendered,
    is_aggregate,
    limited,
    warnings_of,
    without_aggregates,
};
use vstd::prelude::*;

verus! {

/// The diagnostics that a run shows: filtered by file, tagged by severity,
/// then chosen and limited to `n`.
pub open spec fn selected(
    msgs: Seq<CompilerMessage>,
    filter: Option<String>,
    n: nat,
    show_warnings: bool,
) -> Seq<CompilerMessage> {
    limited(leveled(filtered_by_file(msgs, filter)), n, show_warnings)
}

/// Every diagnostic of `s` satisfies `q`.
pub open spec fn all_hold(s: Seq<CompilerMessage>, q: spec_fn(CompilerMessage) -> bool) -> bool {
    forall|i: int| 0 <= i < s.len() ==> #[trigger] q(s[i])
}

/// No warning comes before an error.
pub open spec fn errors_first(s: Seq<CompilerMessage>) -> bool {
    forall|i: int, j: int|
        0 <= i < j < s.len() ==> is_error(#[trigger] s[i]) || is_warning(#[trigger] s[j])
}

/// No two diagnostics share a rendering.
pub open spec fn distinct_renderings(s: Seq<CompilerMessage>) -> bool {
    forall|i: int, j: int|
        0 <= i < j < s.len() ==> (#[trigger] s[i]).message.rendered@ != (
        #[trigger] s[j]).message.rendered@
}

proof fn lemma_error_is_not_warning(cm: CompilerMessage)
    ensures
        is_error(cm) ==> !is_warning(cm),
{
    reveal_strlit("error");
    reveal_strlit("warning");
    assert("error"@.len() != "warning"@.len());
}

proof fn lemma_at_most_keeps(s: Seq<CompilerMessage>, n: nat, q: spec_fn(CompilerMessage) -> bool)
    requires
        all_hold(s, q),
    ensures
        all_hold(at_most(s, n), q),
        at_most(s, n).len() <= n,
{
    if s.len() > n {
        assert forall|i: int| 0 <= i < at_most(s, n).len() implies #[trigger] q(
            at_most(s, n)[i],
        ) by {
            assert(at_most(s, n)[i] == s[i]);
        }
    }
}

proof fn lemma_only_in_file_keeps(
    s: Seq<CompilerMessage>,
    suffix: Seq<char>,
    q: spec_fn(CompilerMessage) -> bool,
)
    requires
        all_hold(s, q),
    ensures
        all_hold(only_in_file(s, suffix), q),
        all_hold(only_in_file(s, suffix), |c: CompilerMessage| points_into(c, suffix)),
    decreases s.len(),
{
    if s.len() > 0 {
        lemma_only_in_file_keeps(s.drop_last(), suffix, q);
        let prev = only_in_file(s.drop_last(), suffix);
        if points_into(s.last(), suffix) {
            assert(q(s[s.len() - 1]));
            assert forall|i: int| 0 <= i < prev.push(s.last()).len() implies #[trigger] q(
                prev.push(s.last())[i],
            ) by {
                if i < prev.len() {
                    assert(q(prev[i]));
                }
            }
        }
    }
}

proof fn lemma_only_in_file_all_match(s: Seq<CompilerMessage>, suffix: Seq<char>)
    requires
        all_hold(s, |c: CompilerMessage| points_into(c, suffix)),
    ensures
        only_in_file(s, suffix) == s,
    decreases s.len(),
{
    if s.len() > 0 {
        let p = |c: CompilerMessage| points_into(c, suffix);
        assert(p(s[s.len() - 1]));
        assert(all_hold(s.drop_last(), p)) by {
            assert forall|i: int| 0 <= i < s.drop_last().len() implies #[trigger] p(
                s.drop_last()[i],
            ) by {
                assert(p(s[i]));
            }
        }
        lemma_only_in_file_all_match(s.drop_last(), suffix);
        assert(s.drop_last().push(s.last()) == s);
    }
}

proof fn lemma_leveled_keeps(s: Seq<CompilerMessage>, q: spec_fn(CompilerMessage) -> bool)
    requires
        all_hold(s, q),
    ensures
        all_hold(errors_of(leveled(s)), q),
        all_hold(warnings_of(leveled(s)), q),
        all_hold(errors_of(leveled(s)), |c: CompilerMessage| is_error(c)),
        all_hold(warnings_of(leveled(s)), |c: CompilerMessage| is_warning(c)),
    decreases s.len(),
{
    if s.len() > 0 {
        let t = s.drop_last();
        let x = s.last();
        assert(q(s[s.len() - 1]));
        assert(all_hold(t, q)) by {
            assert forall|i: int| 0 <= i < t.len() implies #[trigger] q(t[i]) by {
                assert(q(s[i]));
            }
        }
        lemma_leveled_keeps(t, q);
        let e = errors_of(leveled(t));
        let w = warnings_of(leveled(t));
        if is_error(x) {
            let tagged = leveled(t).push(LevelType::ErrorLevel(x));
            assert(tagged.drop_last() == leveled(t));
            assert(errors_of(leveled(s)) == e.push(x));
            assert(warnings_of(leveled(s)) == w);
            assert forall|i: int| 0 <= i < e.push(x).len() implies #[trigger] q(e.push(x)[i])
                && is_error(e.push(x)[i]) by {
                if i < e.len() {
                    assert(q(e[i]));
                    assert((|c: CompilerMessage| is_error(c))(e[i]));
                }
            }
        } else if is_warning(x) {
            let tagged = leveled(t).push(LevelType::WarningLevel(x));
            assert(tagged.drop_last() == leveled(t));
            assert(errors_of(leveled(s)) == e);
            assert(warnings_of(leveled(s)) == w.push(x));
            assert forall|i: int| 0 <= i < w.push(x).len() implies #[trigger] q(w.push(x)[i])
                && is_warning(w.push(x)[i]) by {
                if i < w.len() {
                    assert(q(w[i]));
                    assert((|c: CompilerMessage| is_warning(c))(w[i]));
                }
            }
        }
    }
}

proof fn lemma_without_aggregates_keeps(
    s: Seq<CompilerMessage>,
    q: spec_fn(CompilerMessage) -> bool,
)
    requires
        all_hold(s, q),
    ensures
        all_hold(without_aggregates(s), q),
        all_hold(without_aggregates(s), |c: CompilerMessage| !is_aggregate(c)),
    decreases s.len(),
{
    if s.len() > 0 {
        let t = s.drop_last();
        assert(q(s[s.len() - 1]));
        assert(all_hold(t, q)) by {
            assert forall|i: int| 0 <= i < t.len() implies #[trigger] q(t[i]) by {
                assert(q(s[i]));
            }
        }
        lemma_without_aggregates_keeps(t, q);
        let prev = without_aggregates(t);
        if !is_aggregate(s.last()) {
            assert forall|i: int| 0 <= i < prev.push(s.last()).len() implies #[trigger] q(
                prev.push(s.last())[i],
            ) && !is_aggregate(prev.push(s.last())[i]) by {
                if i < prev.len() {
                    assert(q(prev[i]));
                    assert((|c: CompilerMessage| !is_aggregate(c))(prev[i]));
                }
            }
        }
    }
}

proof fn lemma_first_rendered_keeps(s: Seq<CompilerMessage>, q: spec_fn(CompilerMessage) -> bool)
    requires
        all_hold(s, q),
    ensures
        all_hold(first_rendered(s), q),
    decreases s.len(),
{
    if s.len() > 0 {
        let t = s.drop_last();
        assert(q(s[s.len() - 1]));
        assert(all_hold(t, q)) by {
            assert forall|i: int| 0 <= i < t.len() implies #[trigger] q(t[i]) by {
                assert(q(s[i]));
            }
        }
        lemma_first_rendered_keeps(t, q);
        let prev = first_rendered(t);
        if !has_rendered(t, s.last().message.rendered@) {
            assert forall|i: int| 0 <= i < prev.push(s.last()).len() implies #[trigger] q(
                prev.push(s.last())[i],
            ) by {
                if i < prev.len() {
                    assert(q(prev[i]));
                }
            }
        }
    }
}

proof fn lemma_concat_keeps(
    a: Seq<CompilerMessage>,
    b: Seq<CompilerMessage>,
    q: spec_fn(CompilerMessage) -> bool,
)
    requires
        all_hold(a, q),
        all_hold(b, q),
    ensures
        all_hold(a + b, q),
{
    assert forall|i: int| 0 <= i < (a + b).len() implies #[trigger] q((a + b)[i]) by {
        if i < a.len() {
            assert(q(a[i]));
        } else {
            assert(q(b[i - a.len()]));
        }
    }
}

proof fn lemma_first_rendered_distinct(s: Seq<CompilerMessage>)
    ensures
        distinct_renderings(first_rendered(s)),
    decreases s.len(),
{
    if s.len() > 0 {
        let t = s.drop_last();
        lemma_first_rendered_distinct(t);
        let prev = first_rendered(t);
        let x = s.last();
        if !has_rendered(t, x.message.rendered@) {
            let seen = |c: CompilerMessage| has_rendered(t, c.message.rendered@);
            assert(all_hold(t, seen)) by {
                assert forall|i: int| 0 <= i < t.len() implies #[trigger] seen(t[i]) by {
                    assert(t[i].message.rendered@ == t[i].message.rendered@);
                }
            }
            lemma_first_rendered_keeps(t, seen);
            let out = prev.push(x);
            assert forall|i: int, j: int| 0 <= i < j < out.len() implies (
            #[trigger] out[i]).message.rendered@ != (#[trigger] out[j]).message.rendered@ by {
                if j == prev.len() {
                    assert(seen(prev[i]));
                } else {
                    assert(out[i] == prev[i] && out[j] == prev[j]);
                }
            }
        }
    }
}

proof fn lemma_first_rendered_errors_first(s: Seq<CompilerMessage>)
    requires
        errors_first(s),
    ensures
        errors_first(first_rendered(s)),
    decreases s.len(),
{
    if s.len() > 0 {
        let t = s.drop_last();
        let x = s.last();
        assert(errors_first(t)) by {
            assert forall|i: int, j: int| 0 <= i < j < t.len() implies is_error(#[trigger] t[i])
                || is_warning(#[trigger] t[j]) by {
                assert(t[i] == s[i] && t[j] == s[j]);
            }
        }
        lemma_first_rendered_errors_first(t);
        let prev = first_rendered(t);
        if !has_rendered(t, x.message.rendered@) {
            let out = prev.push(x);
            if !is_warning(x) {
                let err = |c: CompilerMessage| is_error(c);
                assert(all_hold(t, err)) by {
                    assert forall|i: int| 0 <= i < t.len() implies #[trigger] err(t[i]) by {
                        assert(is_error(s[i]) || is_warning(s[s.len() - 1]));
                    }
                }
                lemma_first_rendered_keeps(t, err);
            }
            assert forall|i: int, j: int| 0 <= i < j < out.len() implies is_error(
                #[trigger] out[i],
            ) || is_warning(#[trigger] out[j]) by {
                if j == prev.len() {
                    if !is_warning(x) {
                        assert((|c: CompilerMessage| is_error(c))(prev[i]));
                    }
                } else {
                    assert(out[i] == prev[i] && out[j] == prev[j]);
                }
            }
        }
    }
}

proof fn lemma_at_most_pairs(s: Seq<CompilerMessage>, n: nat)
    ensures
        errors_first(s) ==> errors_first(at_most(s, n)),
        distinct_renderings(s) ==> distinct_renderings(at_most(s, n)),
{
    if s.len() > n {
        let out = at_most(s, n);
        assert forall|i: int, j: int| 0 <= i < j < out.len() implies out[i] == s[i] && out[j]
            == s[j] by {}
    }
}

proof fn lemma_split_is_errors_first(a: Seq<CompilerMessage>, b: Seq<CompilerMessage>)
    requires
        all_hold(a, |c: CompilerMessage| is_error(c)),
        all_hold(b, |c: CompilerMessage| is_warning(c)),
    ensures
        errors_first(a + b),
{
    assert forall|i: int, j: int| 0 <= i < j < (a + b).len() implies is_error(
        #[trigger] (a + b)[i],
    ) || is_warning(#[trigger] (a + b)[j]) by {
        if i < a.len() {
            assert((|c: CompilerMessage| is_error(c))(a[i]));
        } else {
            assert((|c: CompilerMessage| is_warning(c))(b[j - a.len()]));
        }
    }
}

/// However many diagnostics come in, no more than the budget are shown.
pub proof fn lemma_within_budget(
    msgs: Seq<CompilerMessage>,
    filter: Option<String>,
    n: nat,
    show_warnings: bool,
)
    ensures
        selected(msgs, filter, n, show_warnings).len() <= n,
{
    let tagged = leveled(filtered_by_file(msgs, filter));
    let any = |c: CompilerMessage| true;
    if show_warnings {
        lemma_at_most_keeps(
            first_rendered(errors_of(tagged) + without_aggregates(warnings_of(tagged))),
            n,
            any,
        );
    } else {
        lemma_at_most_keeps(errors_of(tagged), n, any);
    }
}

/// Without warnings asked for, every diagnostic shown is an error, and none
/// is a warning.
pub proof fn lemma_only_errors_without_warnings(
    msgs: Seq<CompilerMessage>,
    filter: Option<String>,
    n: nat,
)
    ensures
        forall|i: int|
            0 <= i < selected(msgs, filter, n, false).len() ==> is_error(
                #[trigger] selected(msgs, filter, n, false)[i],
            ) && !is_warning(selected(msgs, filter, n, false)[i]),
{
    let f = filtered_by_file(msgs, filter);
    let err = |c: CompilerMessage| is_error(c);
    lemma_leveled_keeps(f, |c: CompilerMessage| true);
    lemma_at_most_keeps(errors_of(leveled(f)), n, err);
    let out = selected(msgs, filter, n, false);
    assert forall|i: int| 0 <= i < out.len() implies is_error(#[trigger] out[i]) && !is_warning(
        out[i],
    ) by {
        assert(err(out[i]));
        lemma_error_is_not_warning(out[i]);
    }
}

proof fn lemma_candidates(tagged: Seq<LevelType>, q: spec_fn(CompilerMessage) -> bool)
    requires
        all_hold(errors_of(tagged), q),
        all_hold(warnings_of(tagged), q),
    ensures
        all_hold(first_rendered(errors_of(tagged) + without_aggregates(warnings_of(tagged))), q),
{
    lemma_without_aggregates_keeps(warnings_of(tagged), q);
    lemma_concat_keeps(errors_of(tagged), without_aggregates(warnings_of(tagged)), q);
    lemma_first_rendered_keeps(errors_of(tagged) + without_aggregates(warnings_of(tagged)), q);
}

/// With warnings asked for, no warning is shown before an error.
pub proof fn lemma_errors_before_warnings(msgs: Seq<CompilerMessage>, filter: Option<String>, n: nat)
    ensures
        errors_first(selected(msgs, filter, n, true)),
{
    let f = filtered_by_file(msgs, filter);
    let tagged = leveled(f);
    lemma_leveled_keeps(f, |c: CompilerMessage| true);
    let w = without_aggregates(warnings_of(tagged));
    lemma_without_aggregates_keeps(warnings_of(tagged), |c: CompilerMessage| is_warning(c));
    lemma_split_is_errors_first(errors_of(tagged), w);
    lemma_first_rendered_errors_first(errors_of(tagged) + w);
    lemma_at_most_pairs(first_rendered(errors_of(tagged) + w), n);
}

/// With warnings asked for, no two diagnostics shown have the same rendering.
pub proof fn lemma_renderings_distinct(msgs: Seq<CompilerMessage>, filter: Option<String>, n: nat)
    ensures
        distinct_renderings(selected(msgs, filter, n, true)),
{
    let tagged = leveled(filtered_by_file(msgs, filter));
    let c = errors_of(tagged) + without_aggregates(warnings_of(tagged));
    lemma_first_rendered_distinct(c);
    lemma_at_most_pairs(first_rendered(c), n);
}

/// With a file filter, every diagnostic shown has a span in a file whose
/// name ends with the filter.
pub proof fn lemma_shown_match_filter(
    msgs: Seq<CompilerMessage>,
    suffix: String,
    n: nat,
    show_warnings: bool,
)
    ensures
        forall|i: int|
            0 <= i < selected(msgs, Some(suffix), n, show_warnings).len() ==> points_into(
                #[trigger] selected(msgs, Some(suffix), n, show_warnings)[i],
                suffix@,
            ),
{
    let m = |c: CompilerMessage| points_into(c, suffix@);
    let f = only_in_file(msgs, suffix@);
    lemma_only_in_file_keeps(msgs, suffix@, |c: CompilerMessage| true);
    lemma_leveled_keeps(f, m);
    let tagged = leveled(f);
    if show_warnings {
        lemma_candidates(tagged, m);
        lemma_at_most_keeps(
            first_rendered(errors_of(tagged) + without_aggregates(warnings_of(tagged))),
            n,
            m,
        );
    } else {
        lemma_at_most_keeps(errors_of(tagged), n, m);
    }
    let out = selected(msgs, Some(suffix), n, show_warnings);
    assert forall|i: int| 0 <= i < out.len() implies points_into(#[trigger] out[i], suffix@) by {
        assert(m(out[i]));
    }
}

proof fn lemma_all_errors_leveled(s: Seq<CompilerMessage>)
    requires
        all_hold(s, |c: CompilerMessage| is_error(c)),
    ensures
        errors_of(leveled(s)) == s,
        warnings_of(leveled(s)) == Seq::<CompilerMessage>::empty(),
    decreases s.len(),
{
    if s.len() > 0 {
        let t = s.drop_last();
        let err = |c: CompilerMessage| is_error(c);
        assert(err(s[s.len() - 1]));
        assert(all_hold(t, err)) by {
            assert forall|i: int| 0 <= i < t.len() implies #[trigger] err(t[i]) by {
                assert(err(s[i]));
            }
        }
        lemma_all_errors_leveled(t);
        let tagged = leveled(t).push(LevelType::ErrorLevel(s.last()));
        assert(tagged.drop_last() == leveled(t));
        assert(t.push(s.last()) == s);
    }
}

/// What `s` is made of when no warning in it comes before an error, each of
/// its diagnostics is an error or a warning, and none of its warnings is an
/// aggregate one: its errors, then its warnings.
proof fn lemma_split_back(s: Seq<CompilerMessage>)
    requires
        errors_first(s),
        all_hold(s, |c: CompilerMessage| is_error(c) || is_warning(c)),
        all_hold(s, |c: CompilerMessage| is_warning(c) ==> !is_aggregate(c)),
    ensures
        errors_of(leveled(s)) + without_aggregates(warnings_of(leveled(s))) == s,
    decreases s.len(),
{
    if s.len() > 0 {
        let t = s.drop_last();
        let x = s.last();
        let kinds = |c: CompilerMessage| is_error(c) || is_warning(c);
        let plain = |c: CompilerMessage| is_warning(c) ==> !is_aggregate(c);
        assert(kinds(s[s.len() - 1]) && plain(s[s.len() - 1]));
        assert(errors_first(t)) by {
            assert forall|i: int, j: int| 0 <= i < j < t.len() implies is_error(#[trigger] t[i])
                || is_warning(#[trigger] t[j]) by {
                assert(t[i] == s[i] && t[j] == s[j]);
            }
        }
        assert(all_hold(t, kinds) && all_hold(t, plain)) by {
            assert forall|i: int| 0 <= i < t.len() implies #[trigger] kinds(t[i]) && plain(t[i]) by {
                assert(kinds(s[i]) && plain(s[i]));
            }
        }
        lemma_split_back(t);
        let e = errors_of(leveled(t));
        let w = warnings_of(leveled(t));
        lemma_error_is_not_warning(x);
        if is_error(x) {
            let err = |c: CompilerMessage| is_error(c);
            assert(all_hold(t, err)) by {
                assert forall|i: int| 0 <= i < t.len() implies #[trigger] err(t[i]) by {
                    assert(is_error(s[i]) || is_warning(s[s.len() - 1]));
                }
            }
            lemma_all_errors_leveled(t);
            let tagged = leveled(t).push(LevelType::ErrorLevel(x));
            assert(tagged.drop_last() == leveled(t));
            assert(errors_of(leveled(s)) == e.push(x));
            assert(warnings_of(leveled(s)) == w);
            assert(without_aggregates(w) == Seq::<CompilerMessage>::empty());
            assert(e.push(x) + Seq::<CompilerMessage>::empty() == s);
        } else {
            let tagged = leveled(t).push(LevelType::WarningLevel(x));
            assert(tagged.drop_last() == leveled(t));
            assert(errors_of(leveled(s)) == e);
            assert(warnings_of(leveled(s)) == w.push(x));
            assert(w.push(x).drop_last() == w);
            assert(without_aggregates(w.push(x)) == without_aggregates(w).push(x));
            assert(e + without_aggregates(w).push(x) == (e + without_aggregates(w)).push(x));
            assert(t.push(x) == s);
        }
    }
}

proof fn lemma_first_rendered_of_distinct(s: Seq<CompilerMessage>)
    requires
        distinct_renderings(s),
    ensures
        first_rendered(s) == s,
    decreases s.len(),
{
    if s.len() > 0 {
        let t = s.drop_last();
        assert(distinct_renderings(t)) by {
            assert forall|i: int, j: int| 0 <= i < j < t.len() implies (
            #[trigger] t[i]).message.rendered@ != (#[trigger] t[j]).message.rendered@ by {
                assert(t[i] == s[i] && t[j] == s[j]);
            }
        }
        lemma_first_rendered_of_distinct(t);
        if has_rendered(t, s.last().message.rendered@) {
            let j = choose|j: int|
                0 <= j < t.len() && #[trigger] t[j].message.rendered@
                    == s.last().message.rendered@;
            assert(s[j] == t[j]);
            assert(false);
        }
        assert(t.push(s.last()) == s);
    }
}

/// Running the pipeline again, with the same options, on what it showed
/// shows the same diagnostics again.
pub proof fn lemma_selection_idempotent(
    msgs: Seq<CompilerMessage>,
    filter: Option<String>,
    n: nat,
    show_warnings: bool,
)
    ensures
        selected(selected(msgs, filter, n, show_warnings), filter, n, show_warnings) == selected(
            msgs,
            filter,
            n,
            show_warnings,
        ),
{
    let out = selected(msgs, filter, n, show_warnings);
    lemma_within_budget(msgs, filter, n, show_warnings);
    match filter {
        Some(suffix) => {
            lemma_shown_match_filter(msgs, suffix, n, show_warnings);
            let m = |c: CompilerMessage| points_into(c, suffix@);
            assert(all_hold(out, m)) by {
                assert forall|i: int| 0 <= i < out.len() implies #[trigger] m(out[i]) by {
                    assert(points_into(out[i], suffix@));
                }
            }
            lemma_only_in_file_all_match(out, suffix@);
        },
        None => {},
    }
    assert(filtered_by_file(out, filter) == out);
    let f = filtered_by_file(msgs, filter);
    let tagged = leveled(f);
    if show_warnings {
        let kinds = |c: CompilerMessage| is_error(c) || is_warning(c);
        let plain = |c: CompilerMessage| is_warning(c) ==> !is_aggregate(c);
        let w = without_aggregates(warnings_of(tagged));
        lemma_leveled_keeps(f, |c: CompilerMessage| true);
        let e = errors_of(tagged);
        let c = e + w;
        lemma_without_aggregates_keeps(warnings_of(tagged), |x: CompilerMessage| is_warning(x));
        assert(all_hold(e, kinds)) by {
            assert forall|i: int| 0 <= i < e.len() implies #[trigger] kinds(e[i]) by {
                assert((|x: CompilerMessage| is_error(x))(e[i]));
                lemma_error_is_not_warning(e[i]);
            }
        }
        assert(all_hold(e, plain)) by {
            assert forall|i: int| 0 <= i < e.len() implies #[trigger] plain(e[i]) by {
                assert((|x: CompilerMessage| is_error(x))(e[i]));
                lemma_error_is_not_warning(e[i]);
            }
        }
        assert(all_hold(w, kinds)) by {
            assert forall|i: int| 0 <= i < w.len() implies #[trigger] kinds(w[i]) by {
                assert((|x: CompilerMessage| is_warning(x))(w[i]));
                assert((|x: CompilerMessage| !is_aggregate(x))(w[i]));
            }
        }
        assert(all_hold(w, plain)) by {
            assert forall|i: int| 0 <= i < w.len() implies #[trigger] plain(w[i]) by {
                assert((|x: CompilerMessage| is_warning(x))(w[i]));
                assert((|x: CompilerMessage| !is_aggregate(x))(w[i]));
            }
        }
        lemma_concat_keeps(e, w, kinds);
        lemma_concat_keeps(e, w, plain);
        lemma_first_rendered_keeps(c, kinds);
        lemma_first_rendered_keeps(c, plain);
        lemma_at_most_keeps(first_rendered(c), n, kinds);
        lemma_at_most_keeps(first_rendered(c), n, plain);
        lemma_errors_before_warnings(msgs, filter, n);
        lemma_renderings_distinct(msgs, filter, n);
        lemma_split_back(out);
        lemma_first_rendered_of_distinct(out);
    } else {
        lemma_only_errors_without_warnings(msgs, filter, n);
        let err = |c: CompilerMessage| is_error(c);
        assert(all_hold(out, err)) by {
            assert forall|i: int| 0 <= i < out.len() implies #[trigger] err(out[i]) by {
                assert(is_error(out[i]));
            }
        }
        lemma_all_errors_leveled(out);
    }
}

} // verus!
