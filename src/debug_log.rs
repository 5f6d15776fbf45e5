//! The trace log: every exchange with the service, in order, kept apart
//! from the response cache. Pages served from the response cache reach no
//! service and are not recorded.

use vstd::prelude::*;

use crate::clock::unix_time_seconds;
use crate::json::{is_json_text, json_value_of, parse_json};
use crate::text::{decimal_text, push_decimal};

verus! {

/// One raw exchange with the service.
pub struct DebugEntry {
    pub timestamp: String,
    pub method: String,
    pub url: String,
    pub request_body: Option<serde_json::Value>,
    pub status: u16,
    pub response_body: Option<serde_json::Value>,
}

/// The trace log: exchanges in the order they happened.
pub struct DebugCache {
    pub entries: Vec<DebugEntry>,
}

/// The timestamp text of an entry: the clock's seconds in base ten, or
/// empty when the clock could not be read.
pub open spec fn stamp_text(clock: Option<u64>) -> Seq<char> {
    match clock {
        Some(t) => decimal_text(t as nat),
        None => Seq::empty(),
    }
}

/// Whether a recorded body is what the sent or received text gives: the
/// value read from the text when there was one and it is JSON, absent
/// otherwise.
pub open spec fn body_recorded(recorded: Option<serde_json::Value>, text: Option<Seq<char>>) -> bool {
    recorded == match text {
        Some(t) => if is_json_text(t) {
            Some(json_value_of(t))
        } else {
            None
        },
        None => None,
    }
}

/// Whether `e` records the exchange described.
pub open spec fn records_exchange(
    e: DebugEntry,
    clock: Option<u64>,
    method: Seq<char>,
    url: Seq<char>,
    request_body: Option<Seq<char>>,
    status: u16,
    response_body: Option<Seq<char>>,
) -> bool {
    &&& e.timestamp@ == stamp_text(clock)
    &&& e.method@ == method
    &&& e.url@ == url
    &&& body_recorded(e.request_body, request_body)
    &&& e.status == status
    &&& body_recorded(e.response_body, response_body)
}

/// The text of an optional borrowed string.
pub open spec fn opt_text(s: Option<&str>) -> Option<Seq<char>> {
    match s {
        Some(x) => Some(x@),
        None => None,
    }
}

/// An answer's body as recorded: none when the text is empty.
pub open spec fn answer_body(text: Seq<char>) -> Option<Seq<char>> {
    if text.len() == 0 {
        None
    } else {
        Some(text)
    }
}

fn best_effort_json(text: Option<&str>) -> (r: Option<serde_json::Value>)
    ensures
        body_recorded(r, opt_text(text)),
{
    match text {
        Some(t) => match parse_json(t) {
            Ok(v) => Some(v),
            Err(_) => None,
        },
        None => None,
    }
}

fn stamp(clock: Option<u64>) -> (r: String)
    ensures
        r@ == stamp_text(clock),
{
    let mut s = String::new();
    match clock {
        Some(t) => push_decimal(&mut s, t),
        None => {},
    }
    s
}

impl DebugCache {
    /// An empty trace log.
    pub fn new() -> (r: DebugCache)
        ensures
            r.entries@.len() == 0,
    {
        DebugCache { entries: Vec::new() }
    }

    /// Appends the exchange described, stamped with `clock`; bodies that are
    /// not JSON are recorded as absent.
    pub fn add_entry_at(
        &mut self,
        clock: Option<u64>,
        method: &str,
        url: &str,
        request_body: Option<&str>,
        status: u16,
        response_body: Option<&str>,
    )
        ensures
            final(self).entries@.len() == old(self).entries@.len() + 1,
            final(self).entries@.drop_last() == old(self).entries@,
            records_exchange(
                final(self).entries@.last(),
                clock,
                method@,
                url@,
                opt_text(request_body),
                status,
                opt_text(response_body),
            ),
    {
        let entry = DebugEntry {
            timestamp: stamp(clock),
            method: method.to_owned(),
            url: url.to_owned(),
            request_body: best_effort_json(request_body),
            status,
            response_body: best_effort_json(response_body),
        };
        self.entries.push(entry);
        assert(self.entries@.drop_last() =~= old(self).entries@);
    }

    /// Appends the exchange described, stamped with the current time;
    /// bodies that are not JSON are recorded as absent.
    pub fn add_entry(
        &mut self,
        method: &str,
        url: &str,
        request_body: Option<&str>,
        status: u16,
        response_body: Option<&str>,
    )
        ensures
            final(self).entries@.len() == old(self).entries@.len() + 1,
            final(self).entries@.drop_last() == old(self).entries@,
            exists|clock: Option<u64>|
                #[trigger] records_exchange(
                    final(self).entries@.last(),
                    clock,
                    method@,
                    url@,
                    opt_text(request_body),
                    status,
                    opt_text(response_body),
                ),
    {
        let clock = unix_time_seconds();
        self.add_entry_at(clock, method, url, request_body, status, response_body);
    }

    /// Records an answer of the service to the request described: an empty
    /// response text is recorded as no body.
    pub fn log_exchange(
        &mut self,
        method: &str,
        url: &str,
        request_body: Option<&str>,
        status: u16,
        response_text: &str,
    )
        ensures
            final(self).entries@.len() == old(self).entries@.len() + 1,
            final(self).entries@.drop_last() == old(self).entries@,
            exists|clock: Option<u64>|
                #[trigger] records_exchange(
                    final(self).entries@.last(),
                    clock,
                    method@,
                    url@,
                    opt_text(request_body),
                    status,
                    answer_body(response_text@),
                ),
    {
        let body = if response_text.is_empty() {
            None
        } else {
            Some(response_text)
        };
        self.add_entry(method, url, request_body, status, body);
    }
}

} // verus!
