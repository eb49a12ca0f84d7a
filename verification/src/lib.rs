//! Verified core of `ddog`, a command-line client for the Datadog API: safety
//! limits, time-range resolution, response projection, request construction and
//! the command-line grammar. I/O lives in the companion application.

pub mod limits;
pub mod text;
pub mod time;
pub mod json;
pub mod output;
pub mod error;
pub mod config;
pub mod log;
pub mod commands;
pub mod cli;
pub mod client;
