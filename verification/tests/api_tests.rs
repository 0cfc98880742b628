use ruscraper::api::AppError;
use ruscraper::api::app_error_of_resolve;
use ruscraper::api::item_response;
use ruscraper::api::scrape_response_for;
use ruscraper::coordinator::ResolveError;
use ruscraper::coordinator::ScrapeCoordinator;

#[test]
fn status_codes_by_category() {
    assert_eq!(AppError::Storage(String::from("x")).status_code(), 500);
    assert_eq!(AppError::Upstream(String::from("x")).status_code(), 500);
    assert_eq!(AppError::Internal(String::from("x")).status_code(), 500);
    assert_eq!(AppError::NotFound(String::from("x")).status_code(), 404);
}

#[test]
fn error_message_bodies() {
    assert_eq!(
        AppError::Storage(String::from("disk full")).message(),
        "Database operation failed: disk full"
    );
    assert_eq!(
        AppError::Upstream(String::from("quota")).message(),
        "Scraping service failed: quota"
    );
    assert_eq!(
        AppError::Internal(String::from("oops")).message(),
        "oops"
    );
    assert_eq!(
        AppError::NotFound(String::from("gone")).message(),
        "gone"
    );
}

#[test]
fn resolve_errors_map_to_categories() {
    let up = app_error_of_resolve(ResolveError::Upstream(String::from("u")));
    assert!(matches!(up, AppError::Upstream(d) if d == "u"));
    let st = app_error_of_resolve(ResolveError::Storage(String::from("s")));
    assert!(matches!(st, AppError::Storage(d) if d == "s"));
}

#[test]
fn item_endpoint_payload_and_not_found() {
    let mut c = ScrapeCoordinator::new();
    let stored = c
        .resolve_finish(&String::from("http://a.example"), Ok(String::from("# A")))
        .unwrap();
    let resp = item_response(&c, 1).unwrap();
    assert_eq!(resp.id, stored.id);
    assert_eq!(resp.url, "http://a.example");
    assert_eq!(resp.content, "# A");
    let missing = item_response(&c, 2).unwrap_err();
    assert!(matches!(
        missing,
        AppError::NotFound(m) if m == "Item not found in database"
    ));
}

#[test]
fn scrape_response_drops_creation_time_only() {
    let mut c = ScrapeCoordinator::new();
    let stored = c
        .resolve_finish(&String::from("http://a.example"), Ok(String::from("# A")))
        .unwrap();
    let resp = scrape_response_for(&stored);
    assert_eq!(resp.id, 1);
    assert_eq!(resp.url, stored.url);
    assert_eq!(resp.content, stored.content);
}
