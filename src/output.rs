//! The text shown to the operator for the results of simple commands.

use vstd::prelude::*;

use crate::json::{strings_json_text, strings_to_json_text, texts};
use crate::text::{decimal_text, push_decimal, push_str};
use crate::types::CreateDocumentResponse;

verus! {

/// What the text view of a document shows: its id, and the title, location,
/// category, author and tag list when present.
#[derive(Debug, Clone)]
pub struct DocumentSummary {
    pub id: String,
    pub title: Option<String>,
    pub location: Option<String>,
    pub category: Option<String>,
    pub author: Option<String>,
    /// The document's tags, already joined by `, `.
    pub tags: Option<String>,
}

/// A labelled line for an optional field: `<label><value>` and a line break,
/// or nothing.
pub open spec fn optional_line(label: Seq<char>, v: Option<String>) -> Seq<char> {
    match v {
        Some(x) => label + x@ + "\n"@,
        None => Seq::empty(),
    }
}

/// The tag line: shown only when there is a non-empty tag list.
pub open spec fn tags_line(tags: Option<String>) -> Seq<char> {
    match tags {
        Some(x) => if x@.len() > 0 {
            "  Tags: "@ + x@ + "\n"@
        } else {
            Seq::empty()
        },
        None => Seq::empty(),
    }
}

/// The title shown for a document: its own, or `(no title)`.
pub open spec fn shown_title(title: Option<String>) -> Seq<char> {
    match title {
        Some(t) => t@,
        None => "(no title)"@,
    }
}

/// The text view of a document.
pub open spec fn document_view(d: DocumentSummary) -> Seq<char> {
    "Document: "@ + shown_title(d.title) + "\n"@ + "  ID: "@ + d.id@ + "\n"@ + optional_line(
        "  Location: "@,
        d.location,
    ) + optional_line("  Category: "@, d.category) + optional_line("  Author: "@, d.author)
        + tags_line(d.tags)
}

/// Documents, each followed by an empty line.
pub open spec fn documents_view(docs: Seq<DocumentSummary>) -> Seq<char>
    decreases docs.len(),
{
    if docs.len() == 0 {
        Seq::empty()
    } else {
        documents_view(docs.drop_last()) + document_view(docs.last()) + "\n"@
    }
}

/// The text view of a listing page.
pub open spec fn listing_view(count: u32, docs: Seq<DocumentSummary>, next_cursor: Option<String>) -> Seq<char> {
    "Documents: "@ + decimal_text(count as nat) + " total\n"@ + documents_view(docs) + optional_line(
        "Next cursor: "@,
        next_cursor,
    )
}

fn push_optional_line(s: &mut String, label: &str, v: &Option<String>)
    ensures
        final(s)@ == old(s)@ + optional_line(label@, *v),
{
    match v {
        Some(x) => {
            push_str(s, label);
            push_str(s, x.as_str());
            push_str(s, "\n");
        },
        None => {},
    }
}

fn push_document_head(s: &mut String, d: &DocumentSummary)
    ensures
        final(s)@ == old(s)@ + ("Document: "@ + shown_title(d.title) + "\n"@ + "  ID: "@ + d.id@ + "\n"@),
{
    let ghost start = s@;
    push_str(s, "Document: ");
    match &d.title {
        Some(t) => push_str(s, t.as_str()),
        None => push_str(s, "(no title)"),
    }
    push_str(s, "\n");
    push_str(s, "  ID: ");
    push_str(s, d.id.as_str());
    push_str(s, "\n");
    assert(s@ =~= start + ("Document: "@ + shown_title(d.title) + "\n"@ + "  ID: "@ + d.id@ + "\n"@));
}

fn push_tags_line(s: &mut String, tags: &Option<String>)
    ensures
        final(s)@ == old(s)@ + tags_line(*tags),
{
    let ghost start = s@;
    match tags {
        Some(t) => {
            if !t.as_str().is_empty() {
                push_str(s, "  Tags: ");
                push_str(s, t.as_str());
                push_str(s, "\n");
                assert(s@ =~= start + tags_line(*tags));
            } else {
                assert(s@ =~= start + tags_line(*tags));
            }
        },
        None => {
            assert(s@ =~= start + tags_line(*tags));
        },
    }
}

fn push_document(s: &mut String, d: &DocumentSummary)
    ensures
        final(s)@ == old(s)@ + document_view(*d),
{
    let ghost start = s@;
    push_document_head(s, d);
    let ghost s1 = s@;
    push_optional_line(s, "  Location: ", &d.location);
    let ghost s2 = s@;
    push_optional_line(s, "  Category: ", &d.category);
    let ghost s3 = s@;
    push_optional_line(s, "  Author: ", &d.author);
    let ghost s4 = s@;
    push_tags_line(s, &d.tags);
    proof {
        let head = "Document: "@ + shown_title(d.title) + "\n"@ + "  ID: "@ + d.id@ + "\n"@;
        let l1 = optional_line("  Location: "@, d.location);
        let l2 = optional_line("  Category: "@, d.category);
        let l3 = optional_line("  Author: "@, d.author);
        let l4 = tags_line(d.tags);
        assert(document_view(*d) =~= head + l1 + l2 + l3 + l4);
        assert(s@ =~= start + (head + l1 + l2 + l3 + l4));
    }
}

/// The text view of a document.
pub fn document_text(d: &DocumentSummary) -> (r: String)
    ensures
        r@ == document_view(*d),
{
    let mut s = String::new();
    push_document(&mut s, d);
    s
}

/// The text view of a listing page: the total, each document followed by an
/// empty line, and the next cursor when there is one.
pub fn listing_text(count: u32, docs: &Vec<DocumentSummary>, next_cursor: &Option<String>) -> (r: String)
    ensures
        r@ == listing_view(count, docs@, *next_cursor),
{
    let mut s = String::new();
    push_str(&mut s, "Documents: ");
    push_decimal(&mut s, count as u64);
    push_str(&mut s, " total\n");
    let ghost head = s@;
    let mut i: usize = 0;
    while i < docs.len()
        invariant
            i <= docs@.len(),
            s@ == head + documents_view(docs@.take(i as int)),
        decreases docs@.len() - i,
    {
        push_document(&mut s, &docs[i]);
        push_str(&mut s, "\n");
        proof {
            let t = docs@.take(i + 1);
            assert(t.drop_last() =~= docs@.take(i as int));
            assert(s@ =~= head + documents_view(t));
        }
        i = i + 1;
    }
    assert(docs@.take(docs@.len() as int) =~= docs@);
    push_optional_line(&mut s, "Next cursor: ", next_cursor);
    assert(s@ =~= listing_view(count, docs@, *next_cursor));
    s
}

/// The text shown, in text mode, once a document was updated.
pub fn update_text(d: &DocumentSummary) -> (r: String)
    ensures
        r@ == "Document updated\n"@ + document_view(*d),
{
    let mut s = String::new();
    push_str(&mut s, "Document updated\n");
    push_document(&mut s, d);
    s
}

/// What is shown when the credential is valid.
pub open spec fn auth_success_text(json_output: bool) -> Seq<char> {
    if json_output {
        "{\"authenticated\": true}"@
    } else {
        "Authentication: valid"@
    }
}

/// What is shown when the credential is refused.
pub open spec fn auth_failure_text(json_output: bool) -> Seq<char> {
    if json_output {
        "{\"authenticated\": false}"@
    } else {
        "Authentication: invalid or expired token"@
    }
}

/// What is shown once document `id` was deleted.
pub open spec fn delete_text(id: Seq<char>, json_output: bool) -> Seq<char> {
    if json_output {
        "{\"deleted\": true, \"id\": \""@ + id + "\"}"@
    } else {
        "Document deleted: "@ + id
    }
}

/// What is shown, in text mode, once a document was saved.
pub open spec fn create_text(id: Seq<char>, url: Seq<char>) -> Seq<char> {
    "Document created\n  ID: "@ + id + "\n  URL: "@ + url
}

/// Names, one per line.
pub open spec fn lines_text(names: Seq<String>) -> Seq<char>
    decreases names.len(),
{
    if names.len() == 0 {
        Seq::empty()
    } else if names.len() == 1 {
        names[0]@
    } else {
        lines_text(names.drop_last()) + "\n"@ + names.last()@
    }
}

/// The text shown when the credential is valid.
pub fn format_auth_success(json_output: bool) -> (r: String)
    ensures
        r@ == auth_success_text(json_output),
{
    if json_output {
        "{\"authenticated\": true}".to_owned()
    } else {
        "Authentication: valid".to_owned()
    }
}

/// The text shown when the credential is refused.
pub fn format_auth_failure(json_output: bool) -> (r: String)
    ensures
        r@ == auth_failure_text(json_output),
{
    if json_output {
        "{\"authenticated\": false}".to_owned()
    } else {
        "Authentication: invalid or expired token".to_owned()
    }
}

/// The text shown once document `id` was deleted.
pub fn format_delete_response(id: &str, json_output: bool) -> (r: String)
    ensures
        r@ == delete_text(id@, json_output),
{
    let mut s = String::new();
    if json_output {
        push_str(&mut s, "{\"deleted\": true, \"id\": \"");
        push_str(&mut s, id);
        push_str(&mut s, "\"}");
    } else {
        push_str(&mut s, "Document deleted: ");
        push_str(&mut s, id);
    }
    s
}

/// The text shown, in text mode, once a document was saved.
pub fn create_response_text(response: &CreateDocumentResponse) -> (r: String)
    ensures
        r@ == create_text(response.id@, response.url@),
{
    let mut s = String::new();
    push_str(&mut s, "Document created\n  ID: ");
    push_str(&mut s, response.id.as_str());
    push_str(&mut s, "\n  URL: ");
    push_str(&mut s, response.url.as_str());
    s
}

/// Tag names, one per line, as shown in text mode.
pub fn tags_text(names: &Vec<String>) -> (r: String)
    ensures
        r@ == lines_text(names@),
{
    let mut s = String::new();
    let mut i: usize = 0;
    while i < names.len()
        invariant
            i <= names@.len(),
            s@ == lines_text(names@.take(i as int)),
        decreases names@.len() - i,
    {
        if i > 0 {
            push_str(&mut s, "\n");
        }
        push_str(&mut s, names[i].as_str());
        proof {
            let t = names@.take(i + 1);
            assert(t.drop_last() =~= names@.take(i as int));
            if i == 0 {
                assert(lines_text(t) == t[0]@);
                assert(lines_text(names@.take(0)) == Seq::<char>::empty());
                assert(s@ =~= lines_text(t));
            } else {
                assert(s@ =~= lines_text(t));
            }
        }
        i = i + 1;
    }
    assert(names@.take(names@.len() as int) =~= names@);
    s
}

/// The tag names as shown: one per line, or as a JSON array of strings in
/// machine-readable mode.
pub fn format_tags_response(names: &Vec<String>, json_output: bool) -> (r: String)
    ensures
        !json_output ==> r@ == lines_text(names@),
        json_output ==> r@ == strings_json_text(texts(names@)),
{
    if json_output {
        match strings_to_json_text(names) {
            Ok(t) => t,
            Err(_) => String::new(),
        }
    } else {
        tags_text(names)
    }
}

} // verus!
