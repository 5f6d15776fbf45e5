use rr_cli::cache::{Cache, CacheFile};
use serde_json::Value;

fn obj(text: &str) -> Value {
    serde_json::from_str(text).unwrap()
}

#[test]
fn set_then_get_returns_response_and_endpoint() {
    let mut c = Cache::new("cache.json", None);
    let r = obj("{\"results\": [1, 2, 3], \"nextPageCursor\": null}");
    c.set("list:all:all:all:all:page:1", "list", obj("{\"page\": 1}"), r.clone());
    let e = c.get("list:all:all:all:all:page:1").expect("entry");
    assert_eq!(e.response, r);
    assert_eq!(e.endpoint, "list");
    assert_eq!(e.params, obj("{\"page\": 1}"));
    assert!(e.timestamp > 0);
}

#[test]
fn missing_or_unreadable_file_gives_empty_cache() {
    let c = Cache::new("missing.json", None);
    assert_eq!(c.file_path(), "missing.json");
    assert_eq!(c.data().len(), 0);
    assert!(c.get("anything").is_none());
}

#[test]
fn loaded_entries_are_kept() {
    let mut f = CacheFile::new();
    let mut tmp = Cache::new("x", None);
    tmp.set_at("k", "tag_list", obj("{}"), obj("[\"a\"]"), 7);
    for (k, e) in tmp.data().entries() {
        f.insert(
            k.clone(),
            rr_cli::cache::CacheEntry {
                timestamp: e.timestamp,
                endpoint: e.endpoint.clone(),
                params: e.params.clone(),
                response: e.response.clone(),
            },
        );
    }
    let c = Cache::new("y", Some(f));
    let e = c.get("k").expect("entry");
    assert_eq!(e.timestamp, 7);
    assert_eq!(e.response, obj("[\"a\"]"));
}

#[test]
fn setting_a_key_again_replaces_its_entry() {
    let mut c = Cache::new("c.json", None);
    c.set_at("k", "list", Value::Null, obj("1"), 1);
    c.set_at("other", "list", Value::Null, obj("5"), 1);
    c.set_at("k", "tag_list", Value::Null, obj("2"), 2);
    assert_eq!(c.data().len(), 2);
    let e = c.get("k").unwrap();
    assert_eq!(e.response, obj("2"));
    assert_eq!(e.endpoint, "tag_list");
    assert_eq!(e.timestamp, 2);
    assert_eq!(c.get("other").unwrap().response, obj("5"));
}

#[test]
fn keys_are_compared_exactly() {
    let mut c = Cache::new("c.json", None);
    c.set_at("abc", "list", Value::Null, obj("1"), 1);
    assert!(c.get("ab").is_none());
    assert!(c.get("abcd").is_none());
    assert!(c.get("").is_none());
}
