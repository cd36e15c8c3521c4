//! Severity filtering for log events: a table of per-context minimum levels,
//! built once from configuration, decides which events reach the sink.
pub mod level;
pub mod filter;
pub mod render;
