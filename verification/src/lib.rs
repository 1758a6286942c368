//! Builds the validated execution plan of an HTTP load test: the command
//! line's values are checked against each other, the candidate URLs are
//! resolved against an optional prefix, and the plan is handed out whole.

pub mod config;
pub mod parsing;
pub mod resolve;
