//! How long to wait after the service answers "too many requests".

use vstd::prelude::*;

use crate::json::{is_json_text, json_member, json_member_of, json_str_of, json_value_of, parse_json};
use crate::text::{chars_of, decimal_text, is_digit, leading_digits, parse_decimal, parse_digits, push_decimal, push_str};

verus! {

/// The wait used when the answer names none.
pub const DEFAULT_WAIT_SECONDS: u64 = 60;

/// The first phrase that announces the wait: `in `.
pub open spec fn lower_marker() -> Seq<char> {
    seq!['i', 'n', ' ']
}

/// The second phrase that announces the wait: `In `.
pub open spec fn upper_marker() -> Seq<char> {
    seq!['I', 'n', ' ']
}

/// The word that must follow the number: ` second` (which also begins
/// ` seconds`).
pub open spec fn second_word() -> Seq<char> {
    seq![' ', 's', 'e', 'c', 'o', 'n', 'd']
}

/// Whether `in ` or `In ` starts at position `i` of `s`.
pub open spec fn marker_at(s: Seq<char>, i: int) -> bool {
    0 <= i && i + 3 <= s.len() && (s.subrange(i, i + 3) == lower_marker() || s.subrange(i, i + 3)
        == upper_marker())
}

/// The seconds announced by a phrase `in <N> second` (or `In <N> second`)
/// starting at position `i` of `s`: `N`, when there is at least one digit
/// and the value fits in 64 bits.
pub open spec fn phrase_at(s: Seq<char>, i: int) -> Option<u64> {
    if marker_at(s, i) {
        let d = leading_digits(s.skip(i + 3));
        let j = i + 3 + d.len();
        if j + 7 <= s.len() && s.subrange(j, j + 7) == second_word() {
            parse_decimal(d)
        } else {
            None
        }
    } else {
        None
    }
}

/// The seconds of the first phrase `in <N> second` at or after position `i`.
pub open spec fn phrase_from(s: Seq<char>, i: int) -> Option<u64>
    decreases s.len() - i,
{
    if i < 0 || i >= s.len() {
        None
    } else {
        match phrase_at(s, i) {
            Some(n) => Some(n),
            None => phrase_from(s, i + 1),
        }
    }
}

/// The number of seconds that a message such as
/// `Expected available in 42 seconds` announces: that of the first phrase
/// `in <N> second(s)` (or `In <N> ...`) in it.
pub open spec fn seconds_in_message(s: Seq<char>) -> Option<u64> {
    phrase_from(s, 0)
}

/// The text of the `detail` member of a body that is a JSON object whose
/// `detail` is a string.
pub open spec fn detail_text(body: Seq<char>) -> Option<Seq<char>> {
    if is_json_text(body) {
        match json_member_of(json_value_of(body), "detail"@) {
            Some(d) => json_str_of(d),
            None => None,
        }
    } else {
        None
    }
}

/// The seconds a rate-limit answer's body announces: read from its JSON
/// `detail` text when it has one, from the whole body otherwise.
pub open spec fn body_seconds(body: Seq<char>) -> Option<u64> {
    match detail_text(body) {
        Some(d) => seconds_in_message(d),
        None => seconds_in_message(body),
    }
}

/// Whether every character of `s` is an ASCII digit.
pub open spec fn all_digits(s: Seq<char>) -> bool {
    forall|i: int| 0 <= i < s.len() ==> is_digit(#[trigger] s[i])
}

/// The seconds a `Retry-After` header names, when it is a number of seconds
/// that fits in 64 bits.
pub open spec fn header_seconds(v: Option<Seq<char>>) -> Option<u64> {
    match v {
        Some(t) => if all_digits(t) {
            parse_decimal(t)
        } else {
            None
        },
        None => None,
    }
}

/// The wait in seconds: the header's value, else the body's, else the default.
pub open spec fn chosen_wait(header: Option<u64>, body: Option<u64>) -> u64 {
    match header {
        Some(n) => n,
        None => match body {
            Some(n) => n,
            None => DEFAULT_WAIT_SECONDS,
        },
    }
}

fn matches_at(s: &Vec<char>, p: &Vec<char>, i: usize) -> (r: bool)
    requires
        i + p@.len() <= s@.len(),
    ensures
        r == (s@.subrange(i as int, i + p@.len()) == p@),
{
    let n = s.len();
    let mut j: usize = 0;
    while j < p.len()
        invariant
            j <= p@.len(),
            i + p@.len() <= s@.len(),
            s@.len() <= usize::MAX,
            forall|k: int| 0 <= k < j ==> s@[i + k] == p@[k],
        decreases p@.len() - j,
    {
        if s[i + j] != p[j] {
            assert(s@.subrange(i as int, i + p@.len())[j as int] != p@[j as int]);
            return false;
        }
        j = j + 1;
    }
    assert(s@.subrange(i as int, i + p@.len()) =~= p@);
    true
}

fn number_at(s: &Vec<char>, start: usize) -> (r: (usize, Option<u64>))
    requires
        start <= s@.len(),
    ensures
        r.0 == start + leading_digits(s@.skip(start as int)).len(),
        r.0 <= s@.len(),
        r.1 == parse_decimal(leading_digits(s@.skip(start as int))),
{
    let ghost rest = s@.skip(start as int);
    let mut d: Vec<char> = Vec::new();
    let mut j: usize = start;
    while j < s.len() && '0' <= s[j] && s[j] <= '9'
        invariant
            start <= j <= s@.len(),
            d@ =~= s@.subrange(start as int, j as int),
            forall|k: int| 0 <= k < d@.len() ==> is_digit(#[trigger] d@[k]),
        decreases s@.len() - j,
    {
        d.push(s[j]);
        j = j + 1;
    }
    proof {
        lemma_leading_digits_of_run(rest, (j - start) as int);
    }
    assert(d@ =~= rest.take((j - start) as int));
    (j, parse_digits(d.as_slice()))
}

proof fn lemma_leading_digits_of_run(s: Seq<char>, k: int)
    requires
        0 <= k <= s.len(),
        forall|i: int| 0 <= i < k ==> is_digit(#[trigger] s[i]),
        k < s.len() ==> !is_digit(s[k]),
    ensures
        leading_digits(s) =~= s.take(k),
    decreases k,
{
    if k > 0 {
        let t = s.drop_first();
        assert forall|i: int| 0 <= i < k - 1 implies is_digit(#[trigger] t[i]) by {
            assert(t[i] == s[i + 1]);
        }
        if k - 1 < t.len() {
            assert(t[k - 1] == s[k]);
        }
        lemma_leading_digits_of_run(t, k - 1);
        assert(s.take(k) =~= seq![s[0]] + t.take(k - 1));
    }
}

fn phrase_at_exec(s: &Vec<char>, i: usize, lower: &Vec<char>, upper: &Vec<char>, second: &Vec<char>) -> (r: Option<u64>)
    requires
        i < s@.len(),
        lower@ == lower_marker(),
        upper@ == upper_marker(),
        second@ == second_word(),
    ensures
        r == phrase_at(s@, i as int),
{
    let n = s.len();
    if n < 3 || i > n - 3 {
        return None;
    }
    if !(matches_at(s, lower, i) || matches_at(s, upper, i)) {
        return None;
    }
    let (j, value) = number_at(s, i + 3);
    if n < 7 || j > n - 7 {
        return None;
    }
    if matches_at(s, second, j) {
        value
    } else {
        None
    }
}

/// The number of seconds announced by the first phrase `in <N> second(s)`
/// (or `In <N> ...`) in `msg`.
pub fn extract_seconds_from_message(msg: &str) -> (r: Option<u64>)
    ensures
        r == seconds_in_message(msg@),
{
    let s = chars_of(msg);
    let lower: Vec<char> = vec!['i', 'n', ' '];
    let upper: Vec<char> = vec!['I', 'n', ' '];
    let second: Vec<char> = vec![' ', 's', 'e', 'c', 'o', 'n', 'd'];
    assert(lower@ =~= lower_marker());
    assert(upper@ =~= upper_marker());
    assert(second@ =~= second_word());
    let mut i: usize = 0;
    while i < s.len()
        invariant
            i <= s@.len(),
            s@ == msg@,
            lower@ == lower_marker(),
            upper@ == upper_marker(),
            second@ == second_word(),
            seconds_in_message(msg@) == phrase_from(s@, i as int),
        decreases s@.len() - i,
    {
        match phrase_at_exec(&s, i, &lower, &upper, &second) {
            Some(v) => {
                return Some(v);
            },
            None => {},
        }
        i = i + 1;
    }
    None
}

/// The seconds announced by a rate-limit answer, given the text of its
/// `detail` member when the body is a JSON object that has one as a string:
/// that text is read when present, the whole body otherwise.
pub fn seconds_from_detail(detail: Option<&str>, body: &str) -> (r: Option<u64>)
    ensures
        r == match detail {
            Some(d) => seconds_in_message(d@),
            None => seconds_in_message(body@),
        },
{
    match detail {
        Some(d) => extract_seconds_from_message(d),
        None => extract_seconds_from_message(body),
    }
}

/// The seconds announced by a rate-limit answer's body: those in its JSON
/// `detail` text when it has one, else those in the whole body.
pub fn parse_retry_seconds(body: &str) -> (r: Option<u64>)
    ensures
        r == body_seconds(body@),
{
    let parsed = parse_json(body);
    let detail: Option<&str> = match &parsed {
        Ok(v) => match json_member(v, "detail") {
            Some(d) => d.as_str(),
            None => None,
        },
        Err(_) => None,
    };
    seconds_from_detail(detail, body)
}

/// The seconds named by a `Retry-After` header given as a number of seconds.
pub fn parse_retry_after(value: &str) -> (r: Option<u64>)
    ensures
        r == header_seconds(Some(value@)),
{
    let cs = chars_of(value);
    let mut i: usize = 0;
    while i < cs.len()
        invariant
            cs@ == value@,
            i <= cs@.len(),
            forall|k: int| 0 <= k < i ==> is_digit(#[trigger] cs@[k]),
        decreases cs@.len() - i,
    {
        if !('0' <= cs[i] && cs[i] <= '9') {
            assert(!is_digit(value@[i as int]));
            return None;
        }
        i = i + 1;
    }
    parse_digits(cs.as_slice())
}

/// The wait before the next try: the header's seconds when it names them,
/// else those the body announces, else the default of sixty.
pub fn wait_seconds(header: Option<u64>, from_body: Option<u64>) -> (r: u64)
    ensures
        r == chosen_wait(header, from_body),
{
    match header {
        Some(n) => n,
        None => match from_body {
            Some(n) => n,
            None => DEFAULT_WAIT_SECONDS,
        },
    }
}

/// How long to wait before retrying a rate-limited request: the seconds of
/// the `Retry-After` header when it names them, else those announced in the
/// body, else sixty.
pub fn backoff_seconds(retry_after: Option<&str>, body: &str) -> (r: u64)
    ensures
        r == chosen_wait(
            header_seconds(
                match retry_after {
                    Some(v) => Some(v@),
                    None => None,
                },
            ),
            body_seconds(body@),
        ),
{
    let header = match retry_after {
        Some(v) => parse_retry_after(v),
        None => None,
    };
    let from_body = parse_retry_seconds(body);
    wait_seconds(header, from_body)
}

/// The countdown line shown while `remaining` seconds are left to wait.
pub fn countdown_line(remaining: u64) -> (r: String)
    ensures
        r@ == "\rRate limited. Retrying in "@ + decimal_text(remaining as nat) + " seconds...  "@,
{
    let mut s = String::new();
    push_str(&mut s, "\rRate limited. Retrying in ");
    push_decimal(&mut s, remaining);
    push_str(&mut s, " seconds...  ");
    s
}

/// The seconds still to wait at each step of a countdown from `seconds`:
/// `seconds`, `seconds - 1`, down to one.
pub fn countdown_steps(seconds: u64) -> (r: Vec<u64>)
    ensures
        r@.len() == seconds,
        forall|i: int| 0 <= i < seconds ==> #[trigger] r@[i] == seconds - i,
{
    let mut r: Vec<u64> = Vec::new();
    let mut left: u64 = seconds;
    while left > 0
        invariant
            left <= seconds,
            r@.len() == seconds - left,
            forall|i: int| 0 <= i < r@.len() ==> #[trigger] r@[i] == seconds - i,
        decreases left,
    {
        r.push(left);
        left = left - 1;
    }
    r
}

} // verus!
