//! What to do with each answer of the service: hand it to the caller, wait
//! and try again, or fail.

use vstd::prelude::*;

use crate::error::RrCliError;
use crate::text::{decimal_text, push_decimal, push_str};

verus! {

/// The status of a rate-limited answer.
pub const TOO_MANY_REQUESTS: u16 = 429;

/// Which statuses an operation takes as success.
#[derive(Debug, Clone, Copy, PartialEq, Eq, Structural)]
pub enum SuccessRule {
    /// Any 2xx status.
    AnySuccess,
    /// 204 only.
    NoContent,
    /// 204 (valid credential) or 401 (refused credential): both answer the
    /// question asked.
    AuthProbe,
}

/// What to do with an answer.
#[derive(Debug, Clone, Copy, PartialEq, Eq, Structural)]
pub enum Outcome {
    /// Parse the body and return it.
    Deliver,
    /// Wait, then send the same request again.
    Backoff,
    /// Fail with an API error carrying the status and body.
    Reject,
}

/// Whether `rule` takes `status` as success.
pub open spec fn accepts(rule: SuccessRule, status: u16) -> bool {
    match rule {
        SuccessRule::AnySuccess => 200 <= status <= 299,
        SuccessRule::NoContent => status == 204,
        SuccessRule::AuthProbe => status == 204 || status == 401,
    }
}

/// The outcome of an answer with `status` under `rule`.
pub open spec fn outcome_of(rule: SuccessRule, status: u16) -> Outcome {
    if accepts(rule, status) {
        Outcome::Deliver
    } else if status == TOO_MANY_REQUESTS {
        Outcome::Backoff
    } else {
        Outcome::Reject
    }
}

/// A rate-limited answer is never delivered and never fails the call,
/// whatever the operation: it is always waited out and retried.
pub proof fn lemma_rate_limit_is_retried(rule: SuccessRule)
    ensures
        outcome_of(rule, TOO_MANY_REQUESTS) == Outcome::Backoff,
{
}

/// Whether `rule` takes `status` as success.
pub fn is_success(rule: SuccessRule, status: u16) -> (r: bool)
    ensures
        r == accepts(rule, status),
{
    match rule {
        SuccessRule::AnySuccess => 200 <= status && status <= 299,
        SuccessRule::NoContent => status == 204,
        SuccessRule::AuthProbe => status == 204 || status == 401,
    }
}

/// What to do with an answer with `status` under `rule`: success is
/// delivered, "too many requests" is waited out and retried with no limit
/// on the number of tries, anything else fails.
pub fn classify(rule: SuccessRule, status: u16) -> (r: Outcome)
    ensures
        r == outcome_of(rule, status),
{
    if is_success(rule, status) {
        Outcome::Deliver
    } else if status == TOO_MANY_REQUESTS {
        Outcome::Backoff
    } else {
        Outcome::Reject
    }
}

/// Whether an accepted answer to the credential check says the credential
/// is valid: 204 means valid, 401 invalid or expired.
pub fn auth_is_valid(status: u16) -> (r: bool)
    ensures
        r == (status == 204),
{
    status == 204
}

/// The text of a failed call: `HTTP <status> <reason>: <body>`.
pub open spec fn failure_text(status: u16, reason: Seq<char>, body: Seq<char>) -> Seq<char> {
    "HTTP "@ + decimal_text(status as nat) + " "@ + reason + ": "@ + body
}

/// The error for an answer that was neither accepted nor rate limited,
/// carrying its status, the status's reason phrase and the body.
pub fn api_failure(status: u16, reason: &str, body: &str) -> (r: RrCliError)
    ensures
        r matches RrCliError::ApiError(m) && m@ == failure_text(status, reason@, body@),
{
    let mut m = String::new();
    push_str(&mut m, "HTTP ");
    push_decimal(&mut m, status as u64);
    push_str(&mut m, " ");
    push_str(&mut m, reason);
    push_str(&mut m, ": ");
    push_str(&mut m, body);
    RrCliError::ApiError(m)
}

} // verus!
