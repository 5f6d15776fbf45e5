use rr_cli::request::{list_query, url_with_query};
use rr_cli::types::ListDocumentsParams;

#[test]
fn empty_listing_has_no_query() {
    let p = ListDocumentsParams::new();
    let q = list_query(&p);
    assert!(q.is_empty());
    assert_eq!(url_with_query("https://readwise.io/api/v3/list/", &q), "https://readwise.io/api/v3/list/");
}

#[test]
fn listing_query_in_fixed_order() {
    let mut p = ListDocumentsParams::new();
    p.with_raw_source_url = Some(false);
    p.tag = Some("rust".to_string());
    p.id = Some("42".to_string());
    p.page_cursor = Some("cur".to_string());
    p.with_html_content = Some(true);
    let q = list_query(&p);
    let names: Vec<&str> = q.iter().map(|(k, _)| k.as_str()).collect();
    assert_eq!(names, vec!["id", "tag", "pageCursor", "withHtmlContent", "withRawSourceUrl"]);
    assert_eq!(
        url_with_query("https://readwise.io/api/v3/list/", &q),
        "https://readwise.io/api/v3/list/?id=42&tag=rust&pageCursor=cur&withHtmlContent=true&withRawSourceUrl=false"
    );
}

#[test]
fn every_listing_option_is_sent() {
    let mut p = ListDocumentsParams::new();
    p.updated_after = Some("2024-01-01".to_string());
    p.location = Some("archive".to_string());
    p.category = Some("pdf".to_string());
    let q = list_query(&p);
    assert_eq!(
        q,
        vec![
            ("updatedAfter".to_string(), "2024-01-01".to_string()),
            ("location".to_string(), "archive".to_string()),
            ("category".to_string(), "pdf".to_string()),
        ]
    );
}
