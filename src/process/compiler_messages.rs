//! What each input line is: plain text, a compiler diagnostic, a record of no
//! interest, or a record that could not be decoded.
//!
//! Decoding the JSON of a record into a `Reason` or a `CompilerMessage` is
//! done by the caller; these functions take the outcome of both decodings
//! and decide what the line is.
use crate::compiler_message::CompilerMessage;
use crate::compiler_message_decoding_status::CompilerMessageDecodingStatus;
use crate::paint::{paint, painted, Tint};
use crate::reason::Reason;
use crate::text::{is_prefix, same_text, starts_with};
use vstd::prelude::*;

verus! {

/// An input line sorted for the report.
#[derive(Clone, Debug, PartialEq, Eq)]
pub enum ItemTypes {
    CompilerMessageType(CompilerMessage),
    StdoutLineType(String),
    ErrorType(String),
}

/// The line is a structured record: it starts with `{`.
pub open spec fn is_record(line: Seq<char>) -> bool {
    is_prefix("{"@, line)
}

/// The report line for a record whose envelope could not be decoded.
pub open spec fn reason_failure_text(line: Seq<char>, cause: Seq<char>) -> Seq<char> {
    "******************* Failed to decode Reason from this line: "@ + painted(Tint::Red, line)
        + "\ncause: "@ + cause
}

/// The report line for a compiler-message record that could not be decoded.
pub open spec fn message_failure_text(line: Seq<char>, cause: Seq<char>) -> Seq<char> {
    "******************* Failed to decode CompilerMessage from this line: "@ + painted(
        Tint::Red,
        line,
    ) + "\ncause: "@ + cause
}

/// What a record is, given how its envelope and its diagnostic decoded: the
/// diagnostic when the reason is `compiler-message` and it decoded, nothing
/// for any other reason, and a report line when a needed decoding failed.
pub open spec fn processed(
    line: Seq<char>,
    reason: Result<Reason, String>,
    message: Result<CompilerMessage, String>,
) -> Result<Option<CompilerMessage>, Seq<char>> {
    match reason {
        Err(cause) => Err(reason_failure_text(line, cause@)),
        Ok(r) => if r.reason@ == "compiler-message"@ {
            match message {
                Ok(cm) => Ok(Some(cm)),
                Err(cause) => Err(message_failure_text(line, cause@)),
            }
        } else {
            Ok(None)
        },
    }
}

/// What a line is, given how it decoded as a record envelope and as a
/// diagnostic; the decodings matter only for a line that is a record.
pub open spec fn decoded(
    line: String,
    reason: Result<Reason, String>,
    message: Result<CompilerMessage, String>,
) -> Result<CompilerMessageDecodingStatus, Seq<char>> {
    if !is_record(line@) {
        Ok(CompilerMessageDecodingStatus::StdOutLine(line))
    } else {
        match processed(line@, reason, message) {
            Ok(Some(cm)) => Ok(CompilerMessageDecodingStatus::DecodedCompilerMessage(cm)),
            Ok(None) => Ok(CompilerMessageDecodingStatus::NoCompilerMessage),
            Err(text) => Err(text),
        }
    }
}

/// A result with the text of its error.
pub open spec fn with_error_text<T>(r: Result<T, String>) -> Result<T, Seq<char>> {
    match r {
        Ok(v) => Ok(v),
        Err(e) => Err(e@),
    }
}

/// The item that a decoded line gives the report, if any.
pub open spec fn item_of(r: Result<CompilerMessageDecodingStatus, String>) -> Option<ItemTypes> {
    match r {
        Ok(CompilerMessageDecodingStatus::DecodedCompilerMessage(cm)) => Some(
            ItemTypes::CompilerMessageType(cm),
        ),
        Ok(CompilerMessageDecodingStatus::StdOutLine(line)) => Some(
            ItemTypes::StdoutLineType(line),
        ),
        Ok(CompilerMessageDecodingStatus::NoCompilerMessage) => None,
        Err(e) => Some(ItemTypes::ErrorType(e)),
    }
}

/// The items that the decoded lines give, in order.
pub open spec fn items_of(s: Seq<Result<CompilerMessageDecodingStatus, String>>) -> Seq<ItemTypes>
    decreases s.len(),
{
    if s.len() == 0 {
        seq![]
    } else {
        match item_of(s.last()) {
            Some(item) => items_of(s.drop_last()).push(item),
            None => items_of(s.drop_last()),
        }
    }
}

/// Whether the line is a structured record.
pub fn is_record_line(line: &str) -> (r: bool)
    ensures
        r == is_record(line@),
{
    starts_with(line, "{")
}

/// Decides what a record is from how its envelope and its diagnostic decoded.
pub fn process_compiler_message(
    line: &str,
    reason: Result<Reason, String>,
    message: Result<CompilerMessage, String>,
) -> (r: Result<Option<CompilerMessage>, String>)
    ensures
        with_error_text(r) == processed(line@, reason, message),
{
    match reason {
        Err(cause) => Err(
            String::from_str("******************* Failed to decode Reason from this line: ").concat(
                paint(Tint::Red, line).as_str(),
            ).concat("\ncause: ").concat(cause.as_str()),
        ),
        Ok(r) => {
            if same_text(r.reason.as_str(), "compiler-message") {
                match message {
                    Ok(cm) => Ok(Some(cm)),
                    Err(cause) => Err(
                        String::from_str(
                            "******************* Failed to decode CompilerMessage from this line: ",
                        ).concat(paint(Tint::Red, line).as_str()).concat("\ncause: ").concat(
                            cause.as_str(),
                        ),
                    ),
                }
            } else {
                Ok(None)
            }
        },
    }
}

/// Decides what a line is: plain text unless it starts with `{`; otherwise
/// as `process_compiler_message` decides from the two decodings.
pub fn decode_line(
    line: String,
    reason: Result<Reason, String>,
    message: Result<CompilerMessage, String>,
) -> (r: Result<CompilerMessageDecodingStatus, String>)
    ensures
        with_error_text(r) == decoded(line, reason, message),
{
    if !is_record_line(line.as_str()) {
        Ok(CompilerMessageDecodingStatus::StdOutLine(line))
    } else {
        match process_compiler_message(line.as_str(), reason, message) {
            Ok(Some(cm)) => Ok(CompilerMessageDecodingStatus::DecodedCompilerMessage(cm)),
            Ok(None) => Ok(CompilerMessageDecodingStatus::NoCompilerMessage),
            Err(text) => Err(text),
        }
    }
}

/// Turns the decoded lines into report items, in order: diagnostics, plain
/// lines and decoding failures; records of no interest are dropped.
pub fn get_matches(decoded_lines: Vec<Result<CompilerMessageDecodingStatus, String>>) -> (r: Vec<
    ItemTypes,
>)
    ensures
        r@ == items_of(decoded_lines@),
{
    let ghost s = decoded_lines@;
    let mut items: Vec<ItemTypes> = Vec::new();
    for d in it: decoded_lines.into_iter()
        invariant
            it.seq() == s,
            items@ == items_of(s.take(it.index() as int)),
    {
        assert(s.take(it.index() + 1).drop_last() == s.take(it.index() as int));
        match d {
            Ok(CompilerMessageDecodingStatus::DecodedCompilerMessage(cm)) => {
                items.push(ItemTypes::CompilerMessageType(cm));
            },
            Ok(CompilerMessageDecodingStatus::StdOutLine(line)) => {
                items.push(ItemTypes::StdoutLineType(line));
            },
            Ok(CompilerMessageDecodingStatus::NoCompilerMessage) => {},
            Err(e) => {
                items.push(ItemTypes::ErrorType(e));
            },
        }
    }
    assert(s.take(s.len() as int) == s);
    items
}

} // verus!
