//! What a single input line turned out to be.
use crate::compiler_message::CompilerMessage;
use vstd::prelude::*;

verus! {

#[derive(Clone, Debug, PartialEq, Eq)]
pub enum CompilerMessageDecodingStatus {
    /// A structured record that holds a compiler diagnostic.
    DecodedCompilerMessage(CompilerMessage),
    /// A line of plain text.
    StdOutLine(String),
    /// A structured record of some other kind, of no interest to the report.
    NoCompilerMessage,
}

} // verus!
