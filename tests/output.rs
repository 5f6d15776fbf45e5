use rr_cli::error::RrCliError;
use rr_cli::executor::{api_failure, auth_is_valid, classify, is_success, Outcome, SuccessRule};
use rr_cli::output::{
    create_response_text, format_auth_failure, format_auth_success, format_delete_response,
    format_tags_response, tags_text,
};
use rr_cli::types::CreateDocumentResponse;

#[test]
fn auth_texts() {
    assert_eq!(format_auth_success(true), "{\"authenticated\": true}");
    assert_eq!(format_auth_success(false), "Authentication: valid");
    assert_eq!(format_auth_failure(true), "{\"authenticated\": false}");
    assert_eq!(format_auth_failure(false), "Authentication: invalid or expired token");
}

#[test]
fn delete_texts() {
    assert_eq!(format_delete_response("abc", true), "{\"deleted\": true, \"id\": \"abc\"}");
    assert_eq!(format_delete_response("abc", false), "Document deleted: abc");
}

#[test]
fn create_text() {
    let r = CreateDocumentResponse { id: "1".to_string(), url: "https://x.y".to_string() };
    assert_eq!(create_response_text(&r), "Document created\n  ID: 1\n  URL: https://x.y");
}

#[test]
fn tags_texts() {
    let names = vec!["a".to_string(), "b c".to_string()];
    assert_eq!(tags_text(&names), "a\nb c");
    assert_eq!(tags_text(&vec![]), "");
    assert_eq!(format_tags_response(&names, false), "a\nb c");
    assert_eq!(format_tags_response(&names, true), "[\"a\",\"b c\"]");
}

#[test]
fn success_rules() {
    assert!(is_success(SuccessRule::AnySuccess, 200));
    assert!(is_success(SuccessRule::AnySuccess, 299));
    assert!(!is_success(SuccessRule::AnySuccess, 300));
    assert!(is_success(SuccessRule::NoContent, 204));
    assert!(!is_success(SuccessRule::NoContent, 200));
    assert!(is_success(SuccessRule::AuthProbe, 401));
    assert!(!is_success(SuccessRule::AuthProbe, 200));
}

#[test]
fn outcomes() {
    assert_eq!(classify(SuccessRule::AnySuccess, 201), Outcome::Deliver);
    assert_eq!(classify(SuccessRule::AnySuccess, 429), Outcome::Backoff);
    assert_eq!(classify(SuccessRule::AnySuccess, 500), Outcome::Reject);
    assert_eq!(classify(SuccessRule::AuthProbe, 401), Outcome::Deliver);
    assert_eq!(classify(SuccessRule::NoContent, 404), Outcome::Reject);
    assert!(auth_is_valid(204));
    assert!(!auth_is_valid(401));
}

#[test]
fn api_failure_message() {
    let e = api_failure(404, "Not Found", "{\"detail\":\"nope\"}");
    assert_eq!(e.message(), "API request failed: HTTP 404 Not Found: {\"detail\":\"nope\"}");
}

#[test]
fn error_messages() {
    assert_eq!(RrCliError::AuthError.message(), "Authentication failed: invalid or expired token");
    assert_eq!(
        RrCliError::ApiRateLimited(42).message(),
        "Rate limited by Readwise API. Retry after 42 seconds"
    );
    assert_eq!(
        RrCliError::RateLimitExceeded(100).message(),
        "Internal rate limit exceeded: max 100 requests per session"
    );
    assert_eq!(RrCliError::NotFound("x".to_string()).message(), "Document not found: x");
    assert_eq!(RrCliError::HttpError("t".to_string()).message(), "HTTP error: t");
    assert_eq!(RrCliError::JsonError("t".to_string()).message(), "JSON error: t");
    assert_eq!(RrCliError::IoError("t".to_string()).message(), "IO error: t");
    assert_eq!(RrCliError::InvalidHeader("t".to_string()).message(), "Invalid header value: t");
    assert_eq!(RrCliError::ApiError("t".to_string()).message(), "API request failed: t");
}

fn summary(id: &str, title: Option<&str>, author: Option<&str>, tags: Option<&str>) -> rr_cli::output::DocumentSummary {
    rr_cli::output::DocumentSummary {
        id: id.to_string(),
        title: title.map(String::from),
        location: Some("later".to_string()),
        category: None,
        author: author.map(String::from),
        tags: tags.map(String::from),
    }
}

#[test]
fn document_view_shows_present_fields() {
    let d = summary("d1", Some("Hello"), Some("Ann"), Some("a, b"));
    assert_eq!(
        rr_cli::output::document_text(&d),
        "Document: Hello\n  ID: d1\n  Location: later\n  Author: Ann\n  Tags: a, b\n"
    );
    let e = summary("d2", None, None, Some(""));
    assert_eq!(rr_cli::output::document_text(&e), "Document: (no title)\n  ID: d2\n  Location: later\n");
    assert_eq!(
        rr_cli::output::update_text(&e),
        "Document updated\nDocument: (no title)\n  ID: d2\n  Location: later\n"
    );
}

#[test]
fn listing_view_shows_total_documents_and_cursor() {
    let docs = vec![summary("d1", Some("A"), None, None), summary("d2", Some("B"), None, None)];
    assert_eq!(
        rr_cli::output::listing_text(12, &docs, &Some("next".to_string())),
        "Documents: 12 total\nDocument: A\n  ID: d1\n  Location: later\n\nDocument: B\n  ID: d2\n  Location: later\n\nNext cursor: next\n"
    );
    assert_eq!(rr_cli::output::listing_text(0, &vec![], &None), "Documents: 0 total\n");
}
