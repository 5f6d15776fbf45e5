//! Request, cache and pagination core of a command-line client for a
//! document-management REST API.

pub mod text;
pub mod clock;
pub mod json;
pub mod backoff;
pub mod cache;
pub mod types;
pub mod cli;
pub mod pagination;
pub mod error;
pub mod executor;
pub mod request;
pub mod debug_log;
pub mod tags;
pub mod output;
