//! Requests sent to the service and the responses read back from it.

use vstd::prelude::*;

verus! {

/// The body of a request that saves a new document.
#[derive(Debug, Clone)]
pub struct CreateDocumentRequest {
    pub url: String,
    pub html: Option<String>,
    pub should_clean_html: Option<bool>,
    pub title: Option<String>,
    pub author: Option<String>,
    pub summary: Option<String>,
    pub published_date: Option<String>,
    pub image_url: Option<String>,
    pub location: Option<String>,
    pub category: Option<String>,
    pub saved_using: Option<String>,
    pub tags: Option<Vec<String>>,
    pub notes: Option<String>,
}

/// The body of a request that changes a document; absent fields stay as
/// they are.
#[derive(Debug, Clone)]
pub struct UpdateDocumentRequest {
    pub title: Option<String>,
    pub author: Option<String>,
    pub summary: Option<String>,
    pub published_date: Option<String>,
    pub image_url: Option<String>,
    pub seen: Option<bool>,
    pub location: Option<String>,
    pub category: Option<String>,
    pub tags: Option<Vec<String>>,
}

/// The filters and cursor of a document listing.
#[derive(Debug, Clone)]
pub struct ListDocumentsParams {
    pub id: Option<String>,
    pub updated_after: Option<String>,
    pub location: Option<String>,
    pub category: Option<String>,
    pub tag: Option<String>,
    pub page_cursor: Option<String>,
    pub with_html_content: Option<bool>,
    pub with_raw_source_url: Option<bool>,
}

/// What the service answers to a saved document.
#[derive(Debug, Clone)]
pub struct CreateDocumentResponse {
    pub id: String,
    pub url: String,
}

/// A tag of the account.
#[derive(Debug, Clone)]
pub struct Tag {
    pub key: String,
    pub name: String,
}

/// One page of the account's tags.
#[derive(Debug, Clone)]
pub struct ListTagsResponse {
    pub count: u32,
    pub next_page_cursor: Option<String>,
    pub results: Vec<Tag>,
}

impl ListDocumentsParams {
    /// A listing with no filter, from the first page.
    pub fn new() -> (r: ListDocumentsParams)
        ensures
            r.id is None,
            r.updated_after is None,
            r.location is None,
            r.category is None,
            r.tag is None,
            r.page_cursor is None,
            r.with_html_content is None,
            r.with_raw_source_url is None,
    {
        ListDocumentsParams {
            id: None,
            updated_after: None,
            location: None,
            category: None,
            tag: None,
            page_cursor: None,
            with_html_content: None,
            with_raw_source_url: None,
        }
    }
}

} // verus!
