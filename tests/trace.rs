use rr_cli::debug_log::DebugCache;

#[test]
fn entries_are_appended_in_order() {
    let mut d = DebugCache::new();
    d.add_entry_at(Some(1700000000), "GET", "https://a/b", None, 200, Some("{\"ok\": true}"));
    d.add_entry_at(None, "POST", "https://a/c", Some("not json"), 500, Some("oops"));
    assert_eq!(d.entries.len(), 2);
    let a = &d.entries[0];
    assert_eq!(a.timestamp, "1700000000");
    assert_eq!(a.method, "GET");
    assert_eq!(a.url, "https://a/b");
    assert!(a.request_body.is_none());
    assert_eq!(a.status, 200);
    assert_eq!(a.response_body.as_ref().unwrap()["ok"], serde_json::Value::Bool(true));
    let b = &d.entries[1];
    assert_eq!(b.timestamp, "");
    assert!(b.request_body.is_none());
    assert!(b.response_body.is_none());
}

#[test]
fn empty_answer_is_recorded_without_body() {
    let mut d = DebugCache::new();
    d.log_exchange("DELETE", "https://a/d", Some("{\"x\": 1}"), 204, "");
    assert_eq!(d.entries.len(), 1);
    assert!(d.entries[0].response_body.is_none());
    assert!(d.entries[0].request_body.is_some());
    assert!(!d.entries[0].timestamp.is_empty());
}
