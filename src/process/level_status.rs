//! Sorting diagnostics into errors and warnings, and what the run saw of each.
use crate::compiler_message::CompilerMessage;
use crate::text::same_text;
use vstd::prelude::*;

verus! {

/// A diagnostic tagged with the severity it was reported at.
#[derive(Clone, Debug, PartialEq, Eq)]
pub enum LevelType {
    ErrorLevel(CompilerMessage),
    WarningLevel(CompilerMessage),
}

/// Whether any error, and whether any warning, was seen.
#[derive(Clone, Copy, Debug, PartialEq, Eq, Structural)]
pub struct LevelStatus {
    pub errors: bool,
    pub warnings: bool,
}

/// The tagged diagnostics, with the status that they give.
#[derive(Clone, Debug, PartialEq, Eq)]
pub struct LevelInfo {
    pub status: LevelStatus,
    pub level_types: Vec<LevelType>,
}

/// The diagnostic is reported at level `error`.
pub open spec fn is_error(cm: CompilerMessage) -> bool {
    cm.message.level@ == "error"@
}

/// The diagnostic is reported at level `warning`.
pub open spec fn is_warning(cm: CompilerMessage) -> bool {
    cm.message.level@ == "warning"@
}

/// The diagnostics of `s` tagged by severity, in their order; those whose
/// level is neither `error` nor `warning` are left out.
pub open spec fn leveled(s: Seq<CompilerMessage>) -> Seq<LevelType>
    decreases s.len(),
{
    if s.len() == 0 {
        seq![]
    } else if is_error(s.last()) {
        leveled(s.drop_last()).push(LevelType::ErrorLevel(s.last()))
    } else if is_warning(s.last()) {
        leveled(s.drop_last()).push(LevelType::WarningLevel(s.last()))
    } else {
        leveled(s.drop_last())
    }
}

/// The status of a sequence of tagged diagnostics.
pub open spec fn status_of(s: Seq<LevelType>) -> LevelStatus {
    LevelStatus {
        errors: exists|i: int| 0 <= i < s.len() && #[trigger] s[i] is ErrorLevel,
        warnings: exists|i: int| 0 <= i < s.len() && #[trigger] s[i] is WarningLevel,
    }
}

impl LevelStatus {
    fn copy_errors(self, new_errors: bool) -> (r: Self)
        ensures
            r == (LevelStatus { errors: new_errors, ..self }),
    {
        Self { errors: new_errors, warnings: self.warnings }
    }

    fn copy_warnings(self, new_warnings: bool) -> (r: Self)
        ensures
            r == (LevelStatus { warnings: new_warnings, ..self }),
    {
        Self { errors: self.errors, warnings: new_warnings }
    }
}

/// Tags each diagnostic by severity, and says whether errors and warnings
/// were seen among them.
pub fn by_level(filtered_match: Vec<CompilerMessage>) -> (r: LevelInfo)
    ensures
        r.level_types@ == leveled(filtered_match@),
        r.status == status_of(leveled(filtered_match@)),
{
    let filtered_by_level = filter_by_level(filtered_match);
    let level_status = get_level_status(filtered_by_level.as_slice());
    LevelInfo { status: level_status, level_types: filtered_by_level }
}

fn filter_by_level(filtered_match: Vec<CompilerMessage>) -> (r: Vec<LevelType>)
    ensures
        r@ == leveled(filtered_match@),
{
    let ghost s = filtered_match@;
    let mut tagged: Vec<LevelType> = Vec::new();
    for cm in it: filtered_match.into_iter()
        invariant
            it.seq() == s,
            tagged@ == leveled(s.take(it.index() as int)),
    {
        assert(s.take(it.index() + 1).drop_last() == s.take(it.index() as int));
        if same_text(cm.message.level.as_str(), "error") {
            tagged.push(LevelType::ErrorLevel(cm));
        } else if same_text(cm.message.level.as_str(), "warning") {
            tagged.push(LevelType::WarningLevel(cm));
        }
    }
    assert(s.take(s.len() as int) == s);
    tagged
}

fn get_level_status(filtered_by_level: &[LevelType]) -> (r: LevelStatus)
    ensures
        r == status_of(filtered_by_level@),
{
    let ghost s = filtered_by_level@;
    let mut acc = LevelStatus { errors: false, warnings: false };
    let mut i: usize = 0;
    while i < filtered_by_level.len()
        invariant
            i <= s.len(),
            s == filtered_by_level@,
            acc == status_of(s.take(i as int)),
        decreases s.len() - i,
    {
        assert(s.take(i + 1).drop_last() == s.take(i as int));
        assert(s.take(i + 1)[i as int] == s[i as int]);
        match &filtered_by_level[i] {
            LevelType::ErrorLevel(_) => {
                if !acc.errors {
                    acc = acc.copy_errors(true);
                }
            },
            LevelType::WarningLevel(_) => {
                if !acc.warnings {
                    acc = acc.copy_warnings(true);
                }
            },
        }
        i = i + 1;
    }
    assert(s.take(s.len() as int) == s);
    acc
}

} // verus!
