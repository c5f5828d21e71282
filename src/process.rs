//! The stages that turn the input lines into the report.
pub mod all_messages;
pub mod compiler_messages;
pub mod filter;
pub mod level_status;
pub mod limit;
pub mod report;
pub mod selection;
pub mod stdout;
