//! Keeping the diagnostics that point into a given file.
use crate::compiler_message::CompilerMessage;
use crate::text::{ends_with, is_suffix};
use vstd::prelude::*;

verus! {

/// Some span of the diagnostic names a file whose name ends with `suffix`.
pub open spec fn points_into(cm: CompilerMessage, suffix: Seq<char>) -> bool {
    exists|i: int|
        0 <= i < cm.message.spans@.len() && #[trigger] is_suffix(
            suffix,
            cm.message.spans@[i].file_name@,
        )
}

/// The diagnostics of `s` that point into a file ending with `suffix`, in
/// their order.
pub open spec fn only_in_file(s: Seq<CompilerMessage>, suffix: Seq<char>) -> Seq<CompilerMessage>
    decreases s.len(),
{
    if s.len() == 0 {
        seq![]
    } else if points_into(s.last(), suffix) {
        only_in_file(s.drop_last(), suffix).push(s.last())
    } else {
        only_in_file(s.drop_last(), suffix)
    }
}

/// The file filter: everything when there is no suffix, else the diagnostics
/// that point into a matching file.
pub open spec fn filtered_by_file(s: Seq<CompilerMessage>, filter: Option<String>) -> Seq<
    CompilerMessage,
> {
    match filter {
        Some(suffix) => only_in_file(s, suffix@),
        None => s,
    }
}

/// Whether some span of `cm` names a file ending with `suffix`.
pub fn points_into_file(cm: &CompilerMessage, suffix: &str) -> (r: bool)
    ensures
        r == points_into(*cm, suffix@),
{
    let spans = &cm.message.spans;
    let mut i: usize = 0;
    while i < spans.len()
        invariant
            i <= spans@.len(),
            spans == &cm.message.spans,
            forall|k: int| 0 <= k < i ==> !is_suffix(suffix@, #[trigger] spans@[k].file_name@),
        decreases spans.len() - i,
    {
        if ends_with(spans[i].file_name.as_str(), suffix) {
            return true;
        }
        i = i + 1;
    }
    false
}

/// Keeps the diagnostics that point into a file whose name ends with the
/// filter, in their order; keeps all of them when there is no filter.
pub fn by_filename(file_to_show_errors_for: Option<String>, matched: Vec<CompilerMessage>) -> (r: Vec<
    CompilerMessage,
>)
    ensures
        r@ == filtered_by_file(matched@, file_to_show_errors_for),
{
    match file_to_show_errors_for {
        Some(file_name_filter) => {
            let ghost s = matched@;
            let mut kept: Vec<CompilerMessage> = Vec::new();
            for cm in it: matched.into_iter()
                invariant
                    it.seq() == s,
                    kept@ == only_in_file(s.take(it.index() as int), file_name_filter@),
            {
                assert(s.take(it.index() + 1).drop_last() == s.take(it.index() as int));
                if points_into_file(&cm, file_name_filter.as_str()) {
                    kept.push(cm);
                }
            }
            assert(s.take(s.len() as int) == s);
            kept
        },
        None => matched,
    }
}

} // verus!
