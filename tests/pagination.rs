use rr_cli::cache::Cache;
use rr_cli::pagination::{list_page_key, quit_requested, quit_word, Pager, PagerPhase};
use rr_cli::types::ListDocumentsParams;

fn params() -> ListDocumentsParams {
    let mut p = ListDocumentsParams::new();
    p.location = Some("later".to_string());
    p.tag = Some("rust".to_string());
    p
}

#[test]
fn page_key_names_filters_and_page() {
    assert_eq!(list_page_key(&params(), 3), "list:5=later:-:4=rust:-:page:3");
    assert_eq!(list_page_key(&ListDocumentsParams::new(), 1), "list:-:-:-:-:page:1");
}

#[test]
fn distinct_filters_get_distinct_keys() {
    let unset = ListDocumentsParams::new();
    let mut named_all = ListDocumentsParams::new();
    named_all.tag = Some("all".to_string());
    assert_ne!(list_page_key(&unset, 1), list_page_key(&named_all, 1));

    let mut a = ListDocumentsParams::new();
    a.tag = Some("x:y".to_string());
    let mut b = ListDocumentsParams::new();
    b.tag = Some("x".to_string());
    b.id = Some("y".to_string());
    assert_ne!(list_page_key(&a, 1), list_page_key(&b, 1));

    let mut c = ListDocumentsParams::new();
    c.tag = Some("é".to_string());
    assert_eq!(list_page_key(&c, 2), "list:-:-:1=é:-:page:2");
}

#[test]
fn key_ignores_construction_order_and_cursor() {
    let a = params();
    let mut b = ListDocumentsParams::new();
    b.tag = Some("rust".to_string());
    b.page_cursor = Some("abc".to_string());
    b.with_html_content = Some(true);
    b.location = Some("later".to_string());
    assert_eq!(list_page_key(&a, 2), list_page_key(&b, 2));
    assert_ne!(list_page_key(&a, 2), list_page_key(&a, 12));
}

#[test]
fn unattended_walk_ends_after_last_page() {
    let mut p = Pager::new(params(), true);
    let pages = vec![Some("c2".to_string()), Some("c3".to_string()), None];
    let mut fetched = Vec::new();
    for next in pages {
        assert_eq!(p.phase, PagerPhase::Fetching);
        fetched.push(p.page);
        p.page_shown(next);
    }
    assert_eq!(p.phase, PagerPhase::Done);
    assert_eq!(fetched, vec![1, 2, 3]);
    assert_eq!(p.params.page_cursor.as_deref(), Some("c3"));
}

#[test]
fn interactive_walk_asks_and_stops_on_quit() {
    let mut p = Pager::new(params(), false);
    p.page_shown(Some("next".to_string()));
    assert_eq!(p.phase, PagerPhase::AwaitingContinuation);
    assert_eq!(p.page, 1);
    p.answered(Some("\n"));
    assert_eq!(p.phase, PagerPhase::Fetching);
    assert_eq!(p.page, 2);
    assert_eq!(p.params.page_cursor.as_deref(), Some("next"));
    p.page_shown(Some("later".to_string()));
    p.answered(Some("  QUIT \n"));
    assert_eq!(p.phase, PagerPhase::Done);
    assert_eq!(p.page, 2);
}

#[test]
fn unreadable_answer_ends_walk() {
    let mut p = Pager::new(params(), false);
    p.page_shown(Some("next".to_string()));
    p.answered(None);
    assert_eq!(p.phase, PagerPhase::Done);
}

#[test]
fn quit_answers() {
    assert!(quit_requested("q"));
    assert!(quit_requested(" Q\n"));
    assert!(quit_requested("Quit"));
    assert!(!quit_requested("quite"));
    assert!(!quit_requested(""));
    assert!(quit_word("quit"));
    assert!(!quit_word("Q"));
}

#[test]
fn second_run_finds_recorded_page() {
    let mut cache = Cache::new("c.json", None);
    let first = Pager::new(params(), true);
    assert!(first.cached(&cache).is_none());
    let response: serde_json::Value =
        serde_json::from_str("{\"count\": 1, \"nextPageCursor\": null, \"results\": []}").unwrap();
    first.record(&mut cache, first.page_params_json(), response.clone());

    let mut other = ListDocumentsParams::new();
    other.tag = Some("rust".to_string());
    other.location = Some("later".to_string());
    let later = Pager::new(other, false);
    let hit = later.cached(&cache).expect("cached page");
    assert_eq!(hit.response, response);
    assert_eq!(hit.endpoint, "list");
    assert_eq!(hit.params["page"], serde_json::Value::from(1u64));
    assert_eq!(hit.params["location"], serde_json::Value::from("later"));
    assert!(hit.params["id"].is_null());
}

#[test]
fn page_banner_text() {
    assert_eq!(rr_cli::pagination::page_banner(2, 20, 135), "=== Page 2 (showing 20/135 total) ===");
}
