//! The addresses and query strings of the service's endpoints.

use vstd::prelude::*;

use crate::cli::text_field;
use crate::text::push_str;
use crate::types::ListDocumentsParams;

verus! {

/// A query parameter: name and value.
pub type QueryPair = (String, String);

/// A query parameter's text: name and value.
pub open spec fn pair_text(p: QueryPair) -> (Seq<char>, Seq<char>) {
    (p.0@, p.1@)
}

/// The parameter `name` when `v` is set, nothing otherwise.
pub open spec fn optional_pair(name: Seq<char>, v: Option<Seq<char>>) -> Seq<(Seq<char>, Seq<char>)> {
    match v {
        Some(x) => seq![(name, x)],
        None => Seq::empty(),
    }
}

/// How a flag is written in a query.
pub open spec fn flag_text(b: bool) -> Seq<char> {
    if b {
        "true"@
    } else {
        "false"@
    }
}

/// An optional flag, as query text.
pub open spec fn flag_field(b: Option<bool>) -> Option<Seq<char>> {
    match b {
        Some(x) => Some(flag_text(x)),
        None => None,
    }
}

/// The query of a listing: each set option, in the order `id`,
/// `updatedAfter`, `location`, `category`, `tag`, `pageCursor`,
/// `withHtmlContent`, `withRawSourceUrl`.
pub open spec fn list_query_of(p: ListDocumentsParams) -> Seq<(Seq<char>, Seq<char>)> {
    optional_pair("id"@, text_field(p.id)) + optional_pair("updatedAfter"@, text_field(p.updated_after))
        + optional_pair("location"@, text_field(p.location)) + optional_pair(
        "category"@,
        text_field(p.category),
    ) + optional_pair("tag"@, text_field(p.tag)) + optional_pair(
        "pageCursor"@,
        text_field(p.page_cursor),
    ) + optional_pair("withHtmlContent"@, flag_field(p.with_html_content)) + optional_pair(
        "withRawSourceUrl"@,
        flag_field(p.with_raw_source_url),
    )
}

/// `name=value` pairs joined by `&`.
pub open spec fn joined_query(q: Seq<(Seq<char>, Seq<char>)>) -> Seq<char>
    decreases q.len(),
{
    if q.len() == 0 {
        Seq::empty()
    } else if q.len() == 1 {
        q[0].0 + "="@ + q[0].1
    } else {
        joined_query(q.drop_last()) + "&"@ + q.last().0 + "="@ + q.last().1
    }
}

/// `url` with the query appended after `?`, or `url` alone for no query.
pub open spec fn url_with_query_text(url: Seq<char>, q: Seq<(Seq<char>, Seq<char>)>) -> Seq<char> {
    if q.len() == 0 {
        url
    } else {
        url + "?"@ + joined_query(q)
    }
}

fn push_optional(q: &mut Vec<QueryPair>, name: &str, v: &Option<String>)
    ensures
        final(q)@.map_values(|p: QueryPair| pair_text(p)) == old(q)@.map_values(|p: QueryPair| pair_text(p))
            + optional_pair(name@, text_field(*v)),
{
    let ghost before = q@.map_values(|p: QueryPair| pair_text(p));
    match v {
        Some(x) => {
            q.push((name.to_owned(), x.clone()));
            assert(q@.map_values(|p: QueryPair| pair_text(p)) =~= before + seq![(name@, x@)]);
        },
        None => {
            assert(before + Seq::<(Seq<char>, Seq<char>)>::empty() =~= before);
        },
    }
}

fn flag_string(b: Option<bool>) -> (r: Option<String>)
    ensures
        text_field(r) == flag_field(b),
{
    match b {
        Some(true) => Some("true".to_owned()),
        Some(false) => Some("false".to_owned()),
        None => None,
    }
}

/// The query parameters of a listing request.
pub fn list_query(p: &ListDocumentsParams) -> (r: Vec<QueryPair>)
    ensures
        r@.map_values(|x: QueryPair| pair_text(x)) == list_query_of(*p),
{
    let mut q: Vec<QueryPair> = Vec::new();
    assert(q@.map_values(|x: QueryPair| pair_text(x)) =~= Seq::<(Seq<char>, Seq<char>)>::empty());
    push_optional(&mut q, "id", &p.id);
    push_optional(&mut q, "updatedAfter", &p.updated_after);
    push_optional(&mut q, "location", &p.location);
    push_optional(&mut q, "category", &p.category);
    push_optional(&mut q, "tag", &p.tag);
    push_optional(&mut q, "pageCursor", &p.page_cursor);
    push_optional(&mut q, "withHtmlContent", &flag_string(p.with_html_content));
    push_optional(&mut q, "withRawSourceUrl", &flag_string(p.with_raw_source_url));
    assert(q@.map_values(|x: QueryPair| pair_text(x)) =~= list_query_of(*p));
    q
}

/// `url` followed by `?` and the query, or `url` alone when the query is
/// empty: the address shown for a request.
pub fn url_with_query(url: &str, query: &Vec<QueryPair>) -> (r: String)
    ensures
        r@ == url_with_query_text(url@, query@.map_values(|x: QueryPair| pair_text(x))),
{
    let ghost q = query@.map_values(|x: QueryPair| pair_text(x));
    let mut s = String::new();
    push_str(&mut s, url);
    if query.len() == 0 {
        return s;
    }
    push_str(&mut s, "?");
    let ghost start = s@;
    let mut i: usize = 0;
    while i < query.len()
        invariant
            q == query@.map_values(|x: QueryPair| pair_text(x)),
            0 < query@.len(),
            i <= query@.len(),
            i == 0 ==> s@ == start,
            i > 0 ==> s@ == start + joined_query(q.take(i as int)),
        decreases query@.len() - i,
    {
        if i > 0 {
            push_str(&mut s, "&");
        }
        push_str(&mut s, query[i].0.as_str());
        push_str(&mut s, "=");
        push_str(&mut s, query[i].1.as_str());
        proof {
            let t = q.take(i + 1);
            assert(t.drop_last() =~= q.take(i as int));
            assert(t.last() == pair_text(query@[i as int]));
            if i == 0 {
                assert(joined_query(t) == t[0].0 + "="@ + t[0].1);
                assert(s@ =~= start + joined_query(t));
            } else {
                assert(s@ =~= start + joined_query(t));
            }
        }
        i = i + 1;
    }
    assert(q.take(query@.len() as int) =~= q);
    assert(s@ =~= url_with_query_text(url@, q));
    s
}

} // verus!
