use rr_cli::cache::Cache;
use rr_cli::tags::{cached_tags, record_tags, tag_list_key, tags_json, tags_params_json, TagWalk};
use rr_cli::types::{ListTagsResponse, Tag};

fn tag(name: &str) -> Tag {
    Tag { key: name.to_lowercase(), name: name.to_string() }
}

#[test]
fn walk_collects_names_over_pages() {
    let mut w = TagWalk::new();
    w.absorb(ListTagsResponse { count: 3, next_page_cursor: Some("page-two".to_string()), results: vec![tag("A"), tag("B")] });
    assert!(!w.done);
    assert_eq!(w.cursor.as_deref(), Some("page-two"));
    w.absorb(ListTagsResponse { count: 3, next_page_cursor: None, results: vec![tag("C")] });
    assert!(w.done);
    assert_eq!(w.names, vec!["A".to_string(), "B".to_string(), "C".to_string()]);
}

#[test]
fn tag_list_is_cached_and_read_back() {
    let mut cache = Cache::new("c.json", None);
    assert!(cached_tags(&cache).is_none());
    let names = vec!["x".to_string(), "y".to_string()];
    let v = tags_json(&names).unwrap();
    assert!(v.is_array());
    record_tags(&mut cache, tags_params_json(), v);
    assert_eq!(cached_tags(&cache), Some(names));
    let e = cache.get(tag_list_key()).unwrap();
    assert_eq!(e.endpoint, "tag_list");
    assert_eq!(e.params, serde_json::Value::Object(serde_json::Map::new()));
    assert_eq!(tag_list_key(), "tag_list:all");
}

#[test]
fn cached_value_of_other_shape_is_not_read() {
    let mut cache = Cache::new("c.json", None);
    record_tags(&mut cache, tags_params_json(), serde_json::Value::from(3u64));
    assert!(cached_tags(&cache).is_none());
}
