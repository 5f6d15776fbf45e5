//! Walking a cursor-paginated document listing page by page, with each page
//! of each distinct filter set cached under its own key.

use vstd::prelude::*;

use crate::cache::{lookup, stored, Cache, CacheEntry};
use crate::cli::text_field;
use crate::json::{
    json_from_map, json_from_opt_text, json_from_u64, json_map_insert, json_map_new, no_members, object_json,
    opt_text, opt_text_json, u64_json,
};
use crate::text::{chars_of, decimal_text, is_digit, lemma_decimal_text_digits, lemma_decimal_text_injective, lowercased, push_decimal, push_str, text_eq, to_lowercase, trim, trimmed};
use crate::types::ListDocumentsParams;

verus! {

/// A filter's value in a cache key: `-` when unset, else the length of the
/// value in characters, `=`, and the value itself. The length makes the code
/// self-delimiting, whatever characters the value holds.
pub open spec fn field_code(v: Option<Seq<char>>) -> Seq<char> {
    match v {
        Some(x) => decimal_text(x.len()) + "="@ + x,
        None => "-"@,
    }
}

/// The cache key of one page of a listing: the listing's location, category,
/// tag and id filters, each coded by `field_code`, and the page number,
/// `list:<location>:<category>:<tag>:<id>:page:<n>`.
pub open spec fn list_cache_key(p: ListDocumentsParams, page: nat) -> Seq<char> {
    "list:"@ + key_body(text_field(p.location), text_field(p.category), text_field(p.tag), text_field(p.id), page)
}

/// The key after its `list:` head.
pub open spec fn key_body(
    l: Option<Seq<char>>,
    c: Option<Seq<char>>,
    t: Option<Seq<char>>,
    i: Option<Seq<char>>,
    n: nat,
) -> Seq<char> {
    field_code(l) + (":"@ + (field_code(c) + (":"@ + (field_code(t) + (":"@ + (field_code(i) + (
    ":page:"@ + decimal_text(n))))))))
}

/// Two listings that filter alike: same location, category, tag and id.
pub open spec fn same_filters(p: ListDocumentsParams, q: ListDocumentsParams) -> bool {
    &&& text_field(p.location) == text_field(q.location)
    &&& text_field(p.category) == text_field(q.category)
    &&& text_field(p.tag) == text_field(q.tag)
    &&& text_field(p.id) == text_field(q.id)
}

/// The endpoint name under which listing pages are cached.
pub open spec fn list_endpoint() -> Seq<char> {
    "list"@
}

/// The key of a page depends on the filters and the page number alone: two
/// listings that filter alike, however their values were built and whatever
/// their cursors and other options, give the same key for the same page.
pub proof fn lemma_key_depends_on_filters_only(p: ListDocumentsParams, q: ListDocumentsParams, page: nat)
    requires
        same_filters(p, q),
    ensures
        list_cache_key(p, page) == list_cache_key(q, page),
{
}

proof fn lemma_cancel_prefix(x: Seq<char>, r1: Seq<char>, r2: Seq<char>)
    requires
        x + r1 == x + r2,
    ensures
        r1 == r2,
{
    assert((x + r1).skip(x.len() as int) =~= r1);
    assert((x + r2).skip(x.len() as int) =~= r2);
}

/// A coded field followed by anything gives back the field and what follows.
proof fn lemma_field_code_split(a: Option<Seq<char>>, b: Option<Seq<char>>, r1: Seq<char>, r2: Seq<char>)
    requires
        field_code(a) + r1 == field_code(b) + r2,
    ensures
        a == b,
        r1 == r2,
{
    reveal_strlit("-");
    reveal_strlit("=");
    let x = field_code(a) + r1;
    match a {
        None => match b {
            None => {
                lemma_cancel_prefix("-"@, r1, r2);
            },
            Some(t) => {
                lemma_decimal_text_digits(t.len());
                assert(x[0] == '-');
                assert(x[0] == decimal_text(t.len())[0]);
            },
        },
        Some(u) => match b {
            None => {
                lemma_decimal_text_digits(u.len());
                assert(x[0] == decimal_text(u.len())[0]);
                assert((field_code(b) + r2)[0] == '-');
            },
            Some(t) => {
                let da = decimal_text(u.len());
                let db = decimal_text(t.len());
                lemma_decimal_text_digits(u.len());
                lemma_decimal_text_digits(t.len());
                let y = field_code(b) + r2;
                if da.len() < db.len() {
                    assert(x[da.len() as int] == '=');
                    assert(y[da.len() as int] == db[da.len() as int]);
                    assert(is_digit(db[da.len() as int]));
                } else if db.len() < da.len() {
                    assert(y[db.len() as int] == '=');
                    assert(x[db.len() as int] == da[db.len() as int]);
                    assert(is_digit(da[db.len() as int]));
                } else {
                    assert(x.take(da.len() as int) =~= da);
                    assert(y.take(db.len() as int) =~= db);
                    lemma_decimal_text_injective(u.len(), t.len());
                    let lo = da.len() + 1;
                    let hi = lo + u.len();
                    assert(x.subrange(lo as int, hi as int) =~= u);
                    assert(y.subrange(lo as int, hi as int) =~= t);
                    assert(x.skip(hi as int) =~= r1);
                    assert(y.skip(hi as int) =~= r2);
                }
            },
        },
    }
}

proof fn lemma_key_body_split(
    l1: Option<Seq<char>>, c1: Option<Seq<char>>, t1: Option<Seq<char>>, i1: Option<Seq<char>>, n1: nat,
    l2: Option<Seq<char>>, c2: Option<Seq<char>>, t2: Option<Seq<char>>, i2: Option<Seq<char>>, n2: nat,
)
    requires
        key_body(l1, c1, t1, i1, n1) == key_body(l2, c2, t2, i2, n2),
    ensures
        l1 == l2 && c1 == c2 && t1 == t2 && i1 == i2 && n1 == n2,
{
    let d1 = ":page:"@ + decimal_text(n1);
    let d2 = ":page:"@ + decimal_text(n2);
    let e1 = ":"@ + (field_code(i1) + d1);
    let e2 = ":"@ + (field_code(i2) + d2);
    let f1 = ":"@ + (field_code(t1) + e1);
    let f2 = ":"@ + (field_code(t2) + e2);
    let g1 = ":"@ + (field_code(c1) + f1);
    let g2 = ":"@ + (field_code(c2) + f2);
    lemma_field_code_split(l1, l2, g1, g2);
    lemma_cancel_prefix(":"@, field_code(c1) + f1, field_code(c2) + f2);
    lemma_field_code_split(c1, c2, f1, f2);
    lemma_cancel_prefix(":"@, field_code(t1) + e1, field_code(t2) + e2);
    lemma_field_code_split(t1, t2, e1, e2);
    lemma_cancel_prefix(":"@, field_code(i1) + d1, field_code(i2) + d2);
    lemma_field_code_split(i1, i2, d1, d2);
    lemma_cancel_prefix(":page:"@, decimal_text(n1), decimal_text(n2));
    lemma_decimal_text_injective(n1, n2);
}

/// The cache key names its page: listings whose keys agree filter alike and
/// are at the same page. So distinct filter sets, or distinct pages, are
/// never cached under one key, whatever characters the filters hold.
pub proof fn lemma_key_identifies_page(p: ListDocumentsParams, q: ListDocumentsParams, a: nat, b: nat)
    requires
        list_cache_key(p, a) == list_cache_key(q, b),
    ensures
        same_filters(p, q),
        a == b,
{
    let bp = key_body(text_field(p.location), text_field(p.category), text_field(p.tag), text_field(p.id), a);
    let bq = key_body(text_field(q.location), text_field(q.category), text_field(q.tag), text_field(q.id), b);
    lemma_cancel_prefix("list:"@, bp, bq);
    lemma_key_body_split(
        text_field(p.location), text_field(p.category), text_field(p.tag), text_field(p.id), a,
        text_field(q.location), text_field(q.category), text_field(q.tag), text_field(q.id), b,
    );
}

fn push_field_code(s: &mut String, v: &Option<String>)
    ensures
        final(s)@ == old(s)@ + field_code(text_field(*v)),
{
    let ghost start = s@;
    match v {
        Some(x) => {
            let n = chars_of(x.as_str()).len();
            push_decimal(s, n as u64);
            push_str(s, "=");
            push_str(s, x.as_str());
            assert(s@ =~= start + field_code(text_field(*v)));
        },
        None => push_str(s, "-"),
    }
}

fn sep_code_then(sep: &str, v: &Option<String>, rest: &str) -> (r: String)
    ensures
        r@ == sep@ + (field_code(text_field(*v)) + rest@),
{
    let mut s = String::new();
    push_str(&mut s, sep);
    push_field_code(&mut s, v);
    push_str(&mut s, rest);
    assert(s@ =~= sep@ + (field_code(text_field(*v)) + rest@));
    s
}

/// The cache key of page `page` of the listing `params`.
pub fn list_page_key(params: &ListDocumentsParams, page: u64) -> (r: String)
    ensures
        r@ == list_cache_key(*params, page as nat),
{
    let mut d = String::new();
    push_str(&mut d, ":page:");
    push_decimal(&mut d, page);
    assert(d@ =~= ":page:"@ + decimal_text(page as nat));
    let e = sep_code_then(":", &params.id, d.as_str());
    let f = sep_code_then(":", &params.tag, e.as_str());
    let g = sep_code_then(":", &params.category, f.as_str());
    let r = sep_code_then("list:", &params.location, g.as_str());
    r
}

/// Where a walk through the pages stands.
#[derive(Debug, Clone, Copy, PartialEq, Eq, Structural)]
pub enum PagerPhase {
    /// The current page is to be fetched (from the cache or the service)
    /// and shown.
    Fetching,
    /// A page was shown and the operator is asked whether to go on.
    AwaitingContinuation,
    /// The walk is over.
    Done,
}

/// A walk through the pages of a listing.
#[derive(Debug, Clone)]
pub struct Pager {
    /// The listing; its cursor names the page being fetched.
    pub params: ListDocumentsParams,
    /// The number of the current page, from one.
    pub page: u64,
    /// Whether pages follow one another without asking the operator.
    pub unattended: bool,
    pub phase: PagerPhase,
    /// The cursor of the next page while the operator is asked.
    pub pending: Option<String>,
}

/// Whether an operator's answer, trimmed and in lower case, asks to stop.
pub open spec fn is_quit_word(w: Seq<char>) -> bool {
    w == "q"@ || w == "quit"@
}

/// Whether an operator's answer asks to stop: `q` or `quit`, in any case,
/// with white space around it or not.
pub open spec fn is_quit_answer(a: Seq<char>) -> bool {
    is_quit_word(lowercased(trimmed(a)))
}

/// The walk after the current page was shown, with `next` the cursor the
/// service gave for the following page: with no cursor the walk is over;
/// unattended, the next page is fetched; otherwise the operator is asked.
pub open spec fn after_page(s: Pager, next: Option<String>) -> Pager {
    match next {
        None => Pager { phase: PagerPhase::Done, ..s },
        Some(c) => if s.unattended {
            Pager {
                params: ListDocumentsParams { page_cursor: Some(c), ..s.params },
                page: (s.page + 1) as u64,
                phase: PagerPhase::Fetching,
                ..s
            }
        } else {
            Pager { pending: Some(c), phase: PagerPhase::AwaitingContinuation, ..s }
        },
    }
}

/// The walk after the operator answered (`None`: the answer could not be
/// read): an unreadable answer or a quit ends it; any other answer goes on
/// to the next page.
pub open spec fn after_answer(s: Pager, answer: Option<Seq<char>>) -> Pager {
    match answer {
        Some(a) => if is_quit_answer(a) {
            Pager { phase: PagerPhase::Done, ..s }
        } else {
            Pager {
                params: ListDocumentsParams { page_cursor: s.pending, ..s.params },
                page: (s.page + 1) as u64,
                phase: PagerPhase::Fetching,
                pending: None,
                ..s
            }
        },
        None => Pager { phase: PagerPhase::Done, ..s },
    }
}

/// The states of an unattended walk from `s` as the pages with the given
/// next cursors are shown one after another.
pub open spec fn walk(s: Pager, nexts: Seq<Option<String>>) -> Seq<Pager>
    decreases nexts.len(),
{
    if nexts.len() == 0 {
        seq![s]
    } else {
        seq![s] + walk(after_page(s, nexts[0]), nexts.drop_first())
    }
}

/// An unattended walk over `n` pages, of which only the last comes without a
/// next cursor, fetches exactly `n` pages, numbered one after another from
/// the first, so that none is visited twice, and then is over.
pub proof fn lemma_walk_ends_after_last_page(s: Pager, nexts: Seq<Option<String>>)
    requires
        s.unattended,
        s.phase == PagerPhase::Fetching,
        nexts.len() >= 1,
        s.page + nexts.len() <= u64::MAX,
        forall|i: int| 0 <= i < nexts.len() - 1 ==> (#[trigger] nexts[i]) is Some,
        nexts.last() is None,
    ensures
        walk(s, nexts).len() == nexts.len() + 1,
        forall|i: int|
            0 <= i < nexts.len() ==> (#[trigger] walk(s, nexts)[i]).phase == PagerPhase::Fetching
                && walk(s, nexts)[i].page == s.page + i,
        walk(s, nexts)[nexts.len() as int].phase == PagerPhase::Done,
        forall|i: int, j: int|
            0 <= i < j < nexts.len() ==> (#[trigger] walk(s, nexts)[i]).page != (#[trigger] walk(
                s,
                nexts,
            )[j]).page,
    decreases nexts.len(),
{
    let w = walk(s, nexts);
    if nexts.len() == 1 {
        assert(walk(after_page(s, nexts[0]), nexts.drop_first()) == seq![after_page(s, nexts[0])]);
    } else {
        let t = after_page(s, nexts[0]);
        let rest = nexts.drop_first();
        assert(nexts[0] is Some);
        assert forall|i: int| 0 <= i < rest.len() - 1 implies (#[trigger] rest[i]) is Some by {
            assert(rest[i] == nexts[i + 1]);
        }
        lemma_walk_ends_after_last_page(t, rest);
        let wt = walk(t, rest);
        assert(w == seq![s] + wt);
        assert forall|i: int| 0 <= i < nexts.len() implies (#[trigger] w[i]).phase
            == PagerPhase::Fetching && w[i].page == s.page + i by {
            if i > 0 {
                assert(w[i] == wt[i - 1]);
            }
        }
    }
}

/// The members of the parameters recorded with a cached page: location,
/// category, tag and id (null when unset) and the page number.
pub open spec fn page_params_members(s: Pager) -> Map<Seq<char>, serde_json::Value> {
    no_members().insert("location"@, opt_text_json(opt_text(s.params.location))).insert(
        "category"@,
        opt_text_json(opt_text(s.params.category)),
    ).insert("tag"@, opt_text_json(opt_text(s.params.tag))).insert(
        "id"@,
        opt_text_json(opt_text(s.params.id)),
    ).insert("page"@, u64_json(s.page))
}

/// A page recorded in the cache by one walk is found there by any later
/// walk of a listing that filters alike, at the same page: it holds the
/// response first fetched, so the page is not fetched again.
pub proof fn lemma_recorded_page_is_found(
    before: Map<Seq<char>, CacheEntry>,
    after: Map<Seq<char>, CacheEntry>,
    first: Pager,
    later: Pager,
    params: serde_json::Value,
    response: serde_json::Value,
)
    requires
        stored(
            before,
            after,
            list_cache_key(first.params, first.page as nat),
            list_endpoint(),
            params,
            response,
        ),
        same_filters(first.params, later.params),
        first.page == later.page,
    ensures
        lookup(after, list_cache_key(later.params, later.page as nat)) is Some,
        lookup(after, list_cache_key(later.params, later.page as nat))->0.response == response,
{
    lemma_key_depends_on_filters_only(first.params, later.params, first.page as nat);
    assert(after.dom().contains(list_cache_key(first.params, first.page as nat)));
}

impl Pager {
    /// A walk of `params` from page one; `unattended` walks every page
    /// without asking.
    pub fn new(params: ListDocumentsParams, unattended: bool) -> (r: Pager)
        ensures
            r.params == params,
            r.page == 1,
            r.unattended == unattended,
            r.phase == PagerPhase::Fetching,
            r.pending is None,
    {
        Pager { params, page: 1, unattended, phase: PagerPhase::Fetching, pending: None }
    }

    /// The cache key of the current page.
    pub fn cache_key(&self) -> (r: String)
        ensures
            r@ == list_cache_key(self.params, self.page as nat),
    {
        list_page_key(&self.params, self.page)
    }

    /// The cached exchange of the current page, if any.
    pub fn cached<'a>(&self, cache: &'a Cache) -> (r: Option<&'a CacheEntry>)
        requires
            cache.wf(),
        ensures
            match r {
                Some(e) => lookup(cache@, list_cache_key(self.params, self.page as nat)) == Some(*e),
                None => lookup(cache@, list_cache_key(self.params, self.page as nat)) is None,
            },
    {
        let key = self.cache_key();
        cache.get(key.as_str())
    }

    /// The parameters recorded with a cached page: its filters (null when
    /// unset) and its number.
    pub fn page_params_json(&self) -> (r: serde_json::Value)
        ensures
            r == object_json(page_params_members(*self)),
    {
        let mut m = json_map_new();
        json_map_insert(&mut m, "location".to_owned(), json_from_opt_text(self.params.location.clone()));
        json_map_insert(&mut m, "category".to_owned(), json_from_opt_text(self.params.category.clone()));
        json_map_insert(&mut m, "tag".to_owned(), json_from_opt_text(self.params.tag.clone()));
        json_map_insert(&mut m, "id".to_owned(), json_from_opt_text(self.params.id.clone()));
        json_map_insert(&mut m, "page".to_owned(), json_from_u64(self.page));
        json_from_map(m)
    }

    /// Records the fetched `response` of the current page in the cache.
    pub fn record(&self, cache: &mut Cache, params: serde_json::Value, response: serde_json::Value)
        requires
            old(cache).wf(),
        ensures
            final(cache).wf(),
            final(cache).path() == old(cache).path(),
            stored(
                old(cache)@,
                final(cache)@,
                list_cache_key(self.params, self.page as nat),
                list_endpoint(),
                params,
                response,
            ),
    {
        let key = self.cache_key();
        cache.set(key.as_str(), "list", params, response);
    }

    /// Moves on once the current page was shown; `next` is the cursor the
    /// service gave for the following page.
    pub fn page_shown(&mut self, next: Option<String>)
        requires
            old(self).phase == PagerPhase::Fetching,
            old(self).page < u64::MAX,
        ensures
            *final(self) == after_page(*old(self), next),
    {
        match next {
            None => {
                self.phase = PagerPhase::Done;
            },
            Some(c) => {
                if self.unattended {
                    self.params.page_cursor = Some(c);
                    self.page = self.page + 1;
                    self.phase = PagerPhase::Fetching;
                } else {
                    self.pending = Some(c);
                    self.phase = PagerPhase::AwaitingContinuation;
                }
            },
        }
    }

    /// Moves on once the operator answered the prompt; `None` when the
    /// answer could not be read.
    pub fn answered(&mut self, answer: Option<&str>)
        requires
            old(self).phase == PagerPhase::AwaitingContinuation,
            old(self).page < u64::MAX,
        ensures
            *final(self) == after_answer(
                *old(self),
                match answer {
                    Some(a) => Some(a@),
                    None => None,
                },
            ),
    {
        match answer {
            Some(a) => {
                if quit_requested(a) {
                    self.phase = PagerPhase::Done;
                } else {
                    let next = self.pending.take();
                    self.params.page_cursor = next;
                    self.page = self.page + 1;
                    self.phase = PagerPhase::Fetching;
                }
            },
            None => {
                self.phase = PagerPhase::Done;
            },
        }
    }
}

/// The line shown above a page in text mode:
/// `=== Page <n> (showing <shown>/<total> total) ===`.
pub open spec fn banner_text(page: nat, shown: nat, total: nat) -> Seq<char> {
    "=== Page "@ + decimal_text(page) + " (showing "@ + decimal_text(shown) + "/"@ + decimal_text(total)
        + " total) ==="@
}

/// The line shown above page `page`, which holds `shown` of `total`
/// documents.
pub fn page_banner(page: u64, shown: u64, total: u32) -> (r: String)
    ensures
        r@ == banner_text(page as nat, shown as nat, total as nat),
{
    let mut s = String::new();
    push_str(&mut s, "=== Page ");
    push_decimal(&mut s, page);
    push_str(&mut s, " (showing ");
    push_decimal(&mut s, shown);
    push_str(&mut s, "/");
    push_decimal(&mut s, total as u64);
    push_str(&mut s, " total) ===");
    assert(s@ =~= banner_text(page as nat, shown as nat, total as nat));
    s
}

/// Whether a normalised answer asks to stop: exactly `q` or `quit`.
pub fn quit_word(w: &str) -> (r: bool)
    ensures
        r == is_quit_word(w@),
{
    text_eq(w, "q") || text_eq(w, "quit")
}

/// Whether an operator's answer asks to stop.
pub fn quit_requested(answer: &str) -> (r: bool)
    ensures
        r == is_quit_answer(answer@),
{
    let t = trim(answer);
    let lower = to_lowercase(t.as_str());
    quit_word(lower.as_str())
}

} // verus!
