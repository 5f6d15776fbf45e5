//! The command descriptions that the command line is parsed into, and how
//! each becomes a request.

use vstd::prelude::*;

use crate::types::{CreateDocumentRequest, ListDocumentsParams, UpdateDocumentRequest};

verus! {

/// Options common to every command, and the command itself.
#[derive(Debug, Clone)]
pub struct Args {
    pub token: Option<String>,
    pub cache: bool,
    pub cache_file: String,
    pub json: bool,
    pub verbose: bool,
    pub command: Command,
}

/// The operation asked for.
#[derive(Debug, Clone)]
pub enum Command {
    Auth,
    Create(CreateArgs),
    List(ListArgs),
    Update(UpdateArgs),
    Delete(DeleteArgs),
    TagList,
}

/// What to save as a new document.
#[derive(Debug, Clone)]
pub struct CreateArgs {
    pub url: String,
    pub html: Option<String>,
    pub should_clean_html: Option<bool>,
    pub title: Option<String>,
    pub author: Option<String>,
    pub summary: Option<String>,
    pub published_date: Option<String>,
    pub image_url: Option<String>,
    pub location: Option<Location>,
    pub category: Option<Category>,
    pub saved_using: Option<String>,
    pub tags: Option<Vec<String>>,
    pub notes: Option<String>,
}

/// Which documents to list, and whether to walk every page unattended.
#[derive(Debug, Clone)]
pub struct ListArgs {
    pub id: Option<String>,
    pub updated_after: Option<String>,
    pub location: Option<ListLocation>,
    pub category: Option<Category>,
    pub tag: Option<String>,
    pub cursor: Option<String>,
    pub with_html_content: Option<bool>,
    pub with_raw_source_url: Option<bool>,
    pub all: bool,
}

/// Which document to change, and how.
#[derive(Debug, Clone)]
pub struct UpdateArgs {
    pub id: String,
    pub title: Option<String>,
    pub author: Option<String>,
    pub summary: Option<String>,
    pub published_date: Option<String>,
    pub image_url: Option<String>,
    pub seen: Option<bool>,
    pub location: Option<Location>,
    pub category: Option<Category>,
    pub tags: Option<Vec<String>>,
}

/// Which document to delete.
#[derive(Debug, Clone)]
pub struct DeleteArgs {
    pub id: String,
}

/// Where a saved or updated document goes.
#[derive(Debug, Clone, Copy, PartialEq, Eq, Structural)]
pub enum Location {
    New,
    Later,
    Archive,
    Feed,
}

/// Where listed documents are looked for.
#[derive(Debug, Clone, Copy, PartialEq, Eq, Structural)]
pub enum ListLocation {
    New,
    Later,
    Shortlist,
    Archive,
    Feed,
}

/// The kind of a document.
#[derive(Debug, Clone, Copy, PartialEq, Eq, Structural)]
pub enum Category {
    Article,
    Email,
    Rss,
    Highlight,
    Note,
    Pdf,
    Epub,
    Tweet,
    Video,
}

/// The name the service uses for a location.
pub open spec fn location_name(l: Location) -> Seq<char> {
    match l {
        Location::New => "new"@,
        Location::Later => "later"@,
        Location::Archive => "archive"@,
        Location::Feed => "feed"@,
    }
}

/// The name the service uses for a listing location.
pub open spec fn list_location_name(l: ListLocation) -> Seq<char> {
    match l {
        ListLocation::New => "new"@,
        ListLocation::Later => "later"@,
        ListLocation::Shortlist => "shortlist"@,
        ListLocation::Archive => "archive"@,
        ListLocation::Feed => "feed"@,
    }
}

/// The name the service uses for a category.
pub open spec fn category_name(c: Category) -> Seq<char> {
    match c {
        Category::Article => "article"@,
        Category::Email => "email"@,
        Category::Rss => "rss"@,
        Category::Highlight => "highlight"@,
        Category::Note => "note"@,
        Category::Pdf => "pdf"@,
        Category::Epub => "epub"@,
        Category::Tweet => "tweet"@,
        Category::Video => "video"@,
    }
}

/// An optional location, by name.
pub open spec fn location_field(l: Option<Location>) -> Option<Seq<char>> {
    match l {
        Some(v) => Some(location_name(v)),
        None => None,
    }
}

/// An optional listing location, by name.
pub open spec fn list_location_field(l: Option<ListLocation>) -> Option<Seq<char>> {
    match l {
        Some(v) => Some(list_location_name(v)),
        None => None,
    }
}

/// An optional category, by name.
pub open spec fn category_field(c: Option<Category>) -> Option<Seq<char>> {
    match c {
        Some(v) => Some(category_name(v)),
        None => None,
    }
}

/// The text of an optional string.
pub open spec fn text_field(s: Option<String>) -> Option<Seq<char>> {
    match s {
        Some(v) => Some(v@),
        None => None,
    }
}

impl Location {
    /// The name the service uses for this location.
    pub fn as_str(&self) -> (r: &'static str)
        ensures
            r@ == location_name(*self),
    {
        match self {
            Location::New => "new",
            Location::Later => "later",
            Location::Archive => "archive",
            Location::Feed => "feed",
        }
    }
}

impl ListLocation {
    /// The name the service uses for this location.
    pub fn as_str(&self) -> (r: &'static str)
        ensures
            r@ == list_location_name(*self),
    {
        match self {
            ListLocation::New => "new",
            ListLocation::Later => "later",
            ListLocation::Shortlist => "shortlist",
            ListLocation::Archive => "archive",
            ListLocation::Feed => "feed",
        }
    }
}

impl Category {
    /// The name the service uses for this category.
    pub fn as_str(&self) -> (r: &'static str)
        ensures
            r@ == category_name(*self),
    {
        match self {
            Category::Article => "article",
            Category::Email => "email",
            Category::Rss => "rss",
            Category::Highlight => "highlight",
            Category::Note => "note",
            Category::Pdf => "pdf",
            Category::Epub => "epub",
            Category::Tweet => "tweet",
            Category::Video => "video",
        }
    }
}

fn location_string(l: Option<Location>) -> (r: Option<String>)
    ensures
        text_field(r) == location_field(l),
{
    match l {
        Some(v) => Some(v.as_str().to_owned()),
        None => None,
    }
}

fn list_location_string(l: Option<ListLocation>) -> (r: Option<String>)
    ensures
        text_field(r) == list_location_field(l),
{
    match l {
        Some(v) => Some(v.as_str().to_owned()),
        None => None,
    }
}

fn category_string(c: Option<Category>) -> (r: Option<String>)
    ensures
        text_field(r) == category_field(c),
{
    match c {
        Some(v) => Some(v.as_str().to_owned()),
        None => None,
    }
}

impl CreateArgs {
    /// The request that saves the described document: every field carried
    /// over, location and category by name.
    pub fn into_request(self) -> (r: CreateDocumentRequest)
        ensures
            r.url == self.url,
            r.html == self.html,
            r.should_clean_html == self.should_clean_html,
            r.title == self.title,
            r.author == self.author,
            r.summary == self.summary,
            r.published_date == self.published_date,
            r.image_url == self.image_url,
            text_field(r.location) == location_field(self.location),
            text_field(r.category) == category_field(self.category),
            r.saved_using == self.saved_using,
            r.tags == self.tags,
            r.notes == self.notes,
    {
        let location = location_string(self.location);
        let category = category_string(self.category);
        CreateDocumentRequest {
            url: self.url,
            html: self.html,
            should_clean_html: self.should_clean_html,
            title: self.title,
            author: self.author,
            summary: self.summary,
            published_date: self.published_date,
            image_url: self.image_url,
            location,
            category,
            saved_using: self.saved_using,
            tags: self.tags,
            notes: self.notes,
        }
    }
}

impl ListArgs {
    /// The listing the arguments describe, from the given cursor.
    pub fn into_params(self) -> (r: ListDocumentsParams)
        ensures
            r.id == self.id,
            r.updated_after == self.updated_after,
            text_field(r.location) == list_location_field(self.location),
            text_field(r.category) == category_field(self.category),
            r.tag == self.tag,
            r.page_cursor == self.cursor,
            r.with_html_content == self.with_html_content,
            r.with_raw_source_url == self.with_raw_source_url,
    {
        let location = list_location_string(self.location);
        let category = category_string(self.category);
        ListDocumentsParams {
            id: self.id,
            updated_after: self.updated_after,
            location,
            category,
            tag: self.tag,
            page_cursor: self.cursor,
            with_html_content: self.with_html_content,
            with_raw_source_url: self.with_raw_source_url,
        }
    }
}

impl UpdateArgs {
    /// The document's id and the request that changes it as described.
    pub fn into_request(self) -> (r: (String, UpdateDocumentRequest))
        ensures
            r.0 == self.id,
            r.1.title == self.title,
            r.1.author == self.author,
            r.1.summary == self.summary,
            r.1.published_date == self.published_date,
            r.1.image_url == self.image_url,
            r.1.seen == self.seen,
            text_field(r.1.location) == location_field(self.location),
            text_field(r.1.category) == category_field(self.category),
            r.1.tags == self.tags,
    {
        let location = location_string(self.location);
        let category = category_string(self.category);
        (
            self.id,
            UpdateDocumentRequest {
                title: self.title,
                author: self.author,
                summary: self.summary,
                published_date: self.published_date,
                image_url: self.image_url,
                seen: self.seen,
                location,
                category,
                tags: self.tags,
            },
        )
    }
}

} // verus!
