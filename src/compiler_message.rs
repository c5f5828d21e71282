//! A compiler diagnostic as the build tool reports it, reduced to the fields
//! that the report reads.
use vstd::prelude::*;

verus! {

/// One diagnostic record: the target it was emitted for, and the message.
#[derive(Clone, Debug, PartialEq, Eq)]
pub struct CompilerMessage {
    pub target: CompilerMessageTarget,
    pub message: CompilerMessageMessage,
}

/// The build target: its name and the path of its root source file.
#[derive(Clone, Debug, PartialEq, Eq)]
pub struct CompilerMessageTarget {
    pub name: String,
    pub src_path: String,
}

/// The diagnostic itself: the compiler's own rendering of it, an optional
/// code, the severity level (`error`, `warning`, or some other word), the
/// short message and the source spans it points at.
#[derive(Clone, Debug, PartialEq, Eq)]
pub struct CompilerMessageMessage {
    pub rendered: String,
    pub code: Option<CompilerMessageCode>,
    pub level: String,
    pub message: String,
    pub spans: Vec<CompilerMessageSpan>,
}

/// A diagnostic code such as `E0412`, with its explanation if there is one.
#[derive(Clone, Debug, PartialEq, Eq)]
pub struct CompilerMessageCode {
    pub code: String,
    pub explanation: Option<String>,
}

/// A source location that a diagnostic points at: the file, whether it is the
/// primary location, and an optional label.
#[derive(Clone, Debug, PartialEq, Eq)]
pub struct CompilerMessageSpan {
    pub file_name: String,
    pub is_primary: bool,
    pub label: Option<String>,
}

} // verus!
