//! Collecting every tag of the account over the pages of the tag listing,
//! and caching the collected names.

use vstd::prelude::*;

use crate::cache::{lookup, stored, Cache, CacheEntry};
use crate::json::{
    json_from_map, json_from_strings, json_map_new, json_to_strings, no_members, object_json, strings_json,
    strings_of_json, texts,
};
use crate::types::{ListTagsResponse, Tag};

verus! {

/// The names of the given tags, in order.
pub open spec fn tag_names(tags: Seq<Tag>) -> Seq<String> {
    tags.map_values(|t: Tag| t.name)
}

/// The cache key of the tag list.
pub open spec fn tag_list_key_text() -> Seq<char> {
    "tag_list:all"@
}

/// The endpoint name under which the tag list is cached.
pub open spec fn tag_list_endpoint() -> Seq<char> {
    "tag_list"@
}

/// A tag list recorded in the cache is found there afterwards: reading the
/// tag-list key gives back the names recorded, with no fetch.
pub proof fn lemma_recorded_tags_are_found(
    before: Map<Seq<char>, CacheEntry>,
    after: Map<Seq<char>, CacheEntry>,
    params: serde_json::Value,
    response: serde_json::Value,
    names: Seq<Seq<char>>,
)
    requires
        stored(before, after, tag_list_key_text(), tag_list_endpoint(), params, response),
        strings_of_json(response) == Some(names),
    ensures
        lookup(after, tag_list_key_text()) is Some,
        strings_of_json(lookup(after, tag_list_key_text())->0.response) == Some(names),
{
    assert(after.dom().contains(tag_list_key_text()));
}

/// A walk over the pages of the tag listing.
pub struct TagWalk {
    /// The names collected so far, page after page.
    pub names: Vec<String>,
    /// The cursor of the page to fetch next; `None` for the first page.
    pub cursor: Option<String>,
    /// Whether the last page was reached.
    pub done: bool,
}

impl TagWalk {
    /// A walk that has not fetched any page.
    pub fn new() -> (r: TagWalk)
        ensures
            r.names@.len() == 0,
            r.cursor is None,
            !r.done,
    {
        TagWalk { names: Vec::new(), cursor: None, done: false }
    }

    /// Takes in one fetched page: its names are appended, and the walk goes
    /// on from the page's next cursor or ends when it has none.
    pub fn absorb(&mut self, page: ListTagsResponse)
        requires
            !old(self).done,
        ensures
            final(self).names@ == old(self).names@ + tag_names(page.results@),
            final(self).cursor == page.next_page_cursor,
            final(self).done == (page.next_page_cursor is None),
    {
        let ghost start = self.names@;
        let results = page.results;
        let n = results.len();
        let mut i: usize = 0;
        while i < n
            invariant
                n == results@.len(),
                i <= n,
                self.names@ == start + tag_names(results@.take(i as int)),
            decreases n - i,
        {
            let name = results[i].name.clone();
            self.names.push(name);
            assert(tag_names(results@.take(i + 1)) =~= tag_names(results@.take(i as int)).push(
                results@[i as int].name,
            ));
            i = i + 1;
        }
        assert(results@.take(n as int) =~= results@);
        self.done = page.next_page_cursor.is_none();
        self.cursor = page.next_page_cursor;
    }
}

/// The cache key of the tag list.
pub fn tag_list_key() -> (r: &'static str)
    ensures
        r@ == tag_list_key_text(),
{
    "tag_list:all"
}

/// The parameters recorded with the cached tag list: an empty object.
pub fn tags_params_json() -> (r: serde_json::Value)
    ensures
        r == object_json(no_members()),
{
    json_from_map(json_map_new())
}

/// The tag names as a JSON array, to be cached; it reads back as the same
/// names.
pub fn tags_json(names: &Vec<String>) -> (r: Option<serde_json::Value>)
    ensures
        r == Some(strings_json(texts(names@))),
        strings_of_json(r->0) == Some(texts(names@)),
{
    json_from_strings(names).ok()
}

/// The cached tag names, if the tag list is cached and its response reads
/// as a list of strings.
pub fn cached_tags(cache: &Cache) -> (r: Option<Vec<String>>)
    requires
        cache.wf(),
    ensures
        match lookup(cache@, tag_list_key_text()) {
            Some(e) => match r {
                Some(x) => strings_of_json(e.response) == Some(texts(x@)),
                None => strings_of_json(e.response) is None,
            },
            None => r is None,
        },
{
    match cache.get(tag_list_key()) {
        Some(e) => match json_to_strings(&e.response) {
            Ok(x) => Some(x),
            Err(_) => None,
        },
        None => None,
    }
}

/// Records the fetched tag list in the cache.
pub fn record_tags(cache: &mut Cache, params: serde_json::Value, response: serde_json::Value)
    requires
        old(cache).wf(),
    ensures
        final(cache).wf(),
        final(cache).path() == old(cache).path(),
        stored(old(cache)@, final(cache)@, tag_list_key_text(), tag_list_endpoint(), params, response),
{
    cache.set(tag_list_key(), "tag_list", params, response);
}

} // verus!
