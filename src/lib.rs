//! Turns the line stream of a build tool (plain text mixed with one-line JSON
//! records) into a short report: compiler diagnostics filtered by file,
//! errors before warnings, each rendering once and no more than asked for;
//! test-runner output with passing cases folded into dots; and a closing
//! status line.
pub mod cli;
pub mod compiler_message;
pub mod compiler_message_decoding_status;
pub mod paint;
pub mod process;
pub mod reason;
pub mod rendered;
pub mod text;
