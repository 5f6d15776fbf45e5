use rr_cli::backoff::{
    backoff_seconds, countdown_line, countdown_steps, extract_seconds_from_message, parse_retry_after,
    parse_retry_seconds, seconds_from_detail, wait_seconds, DEFAULT_WAIT_SECONDS,
};

#[test]
fn extracts_seconds_from_plain_message() {
    assert_eq!(extract_seconds_from_message("Expected available in 42 seconds"), Some(42));
}

#[test]
fn no_pattern_gives_none_and_default_wait() {
    assert_eq!(extract_seconds_from_message("slow down please"), None);
    assert_eq!(backoff_seconds(None, "slow down please"), 60);
    assert_eq!(DEFAULT_WAIT_SECONDS, 60);
}

#[test]
fn capitalised_marker_is_read() {
    assert_eq!(extract_seconds_from_message("In 7 seconds, try again"), Some(7));
}

#[test]
fn lower_marker_without_digits_falls_back_to_capitalised() {
    assert_eq!(extract_seconds_from_message("try in a while. In 9 seconds"), Some(9));
    assert_eq!(extract_seconds_from_message("In 9 seconds"), Some(9));
}

#[test]
fn later_phrase_is_found() {
    assert_eq!(extract_seconds_from_message("Retry in a bit; available in 5 seconds"), Some(5));
    assert_eq!(extract_seconds_from_message("within reach; available in 5 seconds"), Some(5));
}

#[test]
fn number_must_be_followed_by_seconds() {
    assert_eq!(extract_seconds_from_message("available in 5 minutes"), None);
    assert_eq!(extract_seconds_from_message("available in 5"), None);
    assert_eq!(extract_seconds_from_message("available in 1 second"), Some(1));
    assert_eq!(extract_seconds_from_message("in 3 minutes or in 8 seconds"), Some(8));
}

#[test]
fn number_too_large_is_not_read() {
    assert_eq!(extract_seconds_from_message("in 99999999999999999999 seconds"), None);
    assert_eq!(extract_seconds_from_message("in 18446744073709551615 seconds"), Some(u64::MAX));
}

#[test]
fn empty_message_gives_none() {
    assert_eq!(extract_seconds_from_message(""), None);
}

#[test]
fn json_detail_is_preferred_over_body() {
    let body = "{\"detail\": \"Request was throttled. Expected available in 13 seconds.\"}";
    assert_eq!(parse_retry_seconds(body), Some(13));
    assert_eq!(backoff_seconds(None, body), 13);
}

#[test]
fn json_detail_without_phrase_gives_none() {
    let body = "{\"detail\": \"slow down\", \"hint\": \"in 3 seconds\"}";
    assert_eq!(parse_retry_seconds(body), None);
    assert_eq!(backoff_seconds(None, body), 60);
}

#[test]
fn json_without_detail_reads_whole_body() {
    let body = "{\"message\": \"available in 21 seconds\"}";
    assert_eq!(parse_retry_seconds(body), Some(21));
}

#[test]
fn detail_text_is_read_instead_of_body() {
    assert_eq!(seconds_from_detail(Some("no number"), "in 4 seconds"), None);
    assert_eq!(seconds_from_detail(None, "in 4 seconds"), Some(4));
}

#[test]
fn retry_after_header_wins() {
    assert_eq!(parse_retry_after("30"), Some(30));
    assert_eq!(parse_retry_after("3a"), None);
    assert_eq!(backoff_seconds(Some("30"), "Expected available in 42 seconds"), 30);
    assert_eq!(backoff_seconds(Some("soon"), "Expected available in 42 seconds"), 42);
}

#[test]
fn wait_choice_order() {
    assert_eq!(wait_seconds(Some(1), Some(2)), 1);
    assert_eq!(wait_seconds(None, Some(2)), 2);
    assert_eq!(wait_seconds(None, None), 60);
}

#[test]
fn countdown_text_and_steps() {
    assert_eq!(countdown_line(3), "\rRate limited. Retrying in 3 seconds...  ");
    assert_eq!(countdown_steps(3), vec![3, 2, 1]);
    assert!(countdown_steps(0).is_empty());
}
