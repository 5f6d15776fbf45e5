//! The errors a command can end with.

use vstd::prelude::*;

use crate::text::{decimal_text, push_decimal, push_str};

verus! {

/// Why a command failed.
#[derive(Debug, Clone)]
pub enum RrCliError {
    ApiError(String),
    AuthError,
    ApiRateLimited(u64),
    RateLimitExceeded(u32),
    NotFound(String),
    HttpError(String),
    JsonError(String),
    IoError(String),
    InvalidHeader(String),
}

/// The message shown for an error.
pub open spec fn error_message(e: RrCliError) -> Seq<char> {
    match e {
        RrCliError::ApiError(m) => "API request failed: "@ + m@,
        RrCliError::AuthError => "Authentication failed: invalid or expired token"@,
        RrCliError::ApiRateLimited(s) => "Rate limited by Readwise API. Retry after "@
            + decimal_text(s as nat) + " seconds"@,
        RrCliError::RateLimitExceeded(n) => "Internal rate limit exceeded: max "@ + decimal_text(
            n as nat,
        ) + " requests per session"@,
        RrCliError::NotFound(id) => "Document not found: "@ + id@,
        RrCliError::HttpError(m) => "HTTP error: "@ + m@,
        RrCliError::JsonError(m) => "JSON error: "@ + m@,
        RrCliError::IoError(m) => "IO error: "@ + m@,
        RrCliError::InvalidHeader(m) => "Invalid header value: "@ + m@,
    }
}

impl RrCliError {
    /// The message shown for this error.
    pub fn message(&self) -> (r: String)
        ensures
            r@ == error_message(*self),
    {
        let mut s = String::new();
        match self {
            RrCliError::ApiError(m) => {
                push_str(&mut s, "API request failed: ");
                push_str(&mut s, m.as_str());
            },
            RrCliError::AuthError => {
                push_str(&mut s, "Authentication failed: invalid or expired token");
            },
            RrCliError::ApiRateLimited(secs) => {
                push_str(&mut s, "Rate limited by Readwise API. Retry after ");
                push_decimal(&mut s, *secs);
                push_str(&mut s, " seconds");
            },
            RrCliError::RateLimitExceeded(n) => {
                push_str(&mut s, "Internal rate limit exceeded: max ");
                push_decimal(&mut s, *n as u64);
                push_str(&mut s, " requests per session");
            },
            RrCliError::NotFound(id) => {
                push_str(&mut s, "Document not found: ");
                push_str(&mut s, id.as_str());
            },
            RrCliError::HttpError(m) => {
                push_str(&mut s, "HTTP error: ");
                push_str(&mut s, m.as_str());
            },
            RrCliError::JsonError(m) => {
                push_str(&mut s, "JSON error: ");
                push_str(&mut s, m.as_str());
            },
            RrCliError::IoError(m) => {
                push_str(&mut s, "IO error: ");
                push_str(&mut s, m.as_str());
            },
            RrCliError::InvalidHeader(m) => {
                push_str(&mut s, "Invalid header value: ");
                push_str(&mut s, m.as_str());
            },
        }
        assert(s@ =~= error_message(*self));
        s
    }
}

} // verus!
