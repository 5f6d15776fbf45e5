use rr_cli::cli::{Category, CreateArgs, ListArgs, ListLocation, Location, UpdateArgs};

#[test]
fn names_of_locations_and_categories() {
    assert_eq!(Location::New.as_str(), "new");
    assert_eq!(Location::Later.as_str(), "later");
    assert_eq!(Location::Archive.as_str(), "archive");
    assert_eq!(Location::Feed.as_str(), "feed");
    assert_eq!(ListLocation::Shortlist.as_str(), "shortlist");
    assert_eq!(ListLocation::New.as_str(), "new");
    assert_eq!(Category::Article.as_str(), "article");
    assert_eq!(Category::Rss.as_str(), "rss");
    assert_eq!(Category::Video.as_str(), "video");
    assert_eq!(Category::Epub.as_str(), "epub");
}

#[test]
fn create_arguments_become_request() {
    let a = CreateArgs {
        url: "https://e.x".to_string(),
        html: None,
        should_clean_html: Some(true),
        title: Some("T".to_string()),
        author: None,
        summary: None,
        published_date: None,
        image_url: None,
        location: Some(Location::Later),
        category: Some(Category::Pdf),
        saved_using: None,
        tags: Some(vec!["a".to_string()]),
        notes: Some("n".to_string()),
    };
    let r = a.into_request();
    assert_eq!(r.url, "https://e.x");
    assert_eq!(r.should_clean_html, Some(true));
    assert_eq!(r.title.as_deref(), Some("T"));
    assert_eq!(r.location.as_deref(), Some("later"));
    assert_eq!(r.category.as_deref(), Some("pdf"));
    assert_eq!(r.tags, Some(vec!["a".to_string()]));
    assert_eq!(r.notes.as_deref(), Some("n"));
}

#[test]
fn list_arguments_become_params() {
    let a = ListArgs {
        id: None,
        updated_after: Some("2024".to_string()),
        location: Some(ListLocation::Shortlist),
        category: None,
        tag: Some("t".to_string()),
        cursor: Some("c".to_string()),
        with_html_content: None,
        with_raw_source_url: Some(true),
        all: true,
    };
    let p = a.into_params();
    assert_eq!(p.location.as_deref(), Some("shortlist"));
    assert!(p.category.is_none());
    assert_eq!(p.page_cursor.as_deref(), Some("c"));
    assert_eq!(p.updated_after.as_deref(), Some("2024"));
    assert_eq!(p.with_raw_source_url, Some(true));
}

#[test]
fn update_arguments_become_request() {
    let a = UpdateArgs {
        id: "doc".to_string(),
        title: None,
        author: Some("A".to_string()),
        summary: None,
        published_date: None,
        image_url: None,
        seen: Some(false),
        location: Some(Location::Archive),
        category: Some(Category::Note),
        tags: None,
    };
    let (id, r) = a.into_request();
    assert_eq!(id, "doc");
    assert_eq!(r.author.as_deref(), Some("A"));
    assert_eq!(r.seen, Some(false));
    assert_eq!(r.location.as_deref(), Some("archive"));
    assert_eq!(r.category.as_deref(), Some("note"));
}

#[test]
fn digits_render_in_base_ten() {
    assert_eq!(rr_cli::text::decimal_string(0), "0");
    assert_eq!(rr_cli::text::decimal_string(1234567890), "1234567890");
    assert_eq!(rr_cli::text::decimal_string(u64::MAX), "18446744073709551615");
}


#[test]
fn trim_matches_unicode_white_space() {
    let samples = ["  q ", "\u{3000}quit\u{2028}", "\t\n a b \r", "", "   ", "\u{85}x\u{a0}", "\u{200b}y"];
    for s in samples {
        assert_eq!(rr_cli::text::trim(s), s.trim());
    }
    assert_eq!(rr_cli::text::trim("\u{3000} a b\t\n"), "a b");
}
