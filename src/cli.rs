//! The options a run is made with.
use vstd::prelude::*;

verus! {

/// How many diagnostics to show at most, whether warnings are shown beside
/// errors, and the file-name suffix that a shown diagnostic must point into.
#[derive(Clone, Debug, PartialEq, Eq)]
pub struct Cli {
    pub items: u8,
    pub show_warnings: bool,
    pub file_filter: Option<String>,
}

} // verus!
