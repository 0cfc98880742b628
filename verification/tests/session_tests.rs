use ruscraper::adapter::AdapterError;
use ruscraper::adapter::DomainResult;
use ruscraper::session::display_url_span;
use ruscraper::session::Session;
use ruscraper::text::chars_of;

fn result_for(url: &str, document: &str) -> DomainResult {
    DomainResult {
        url: String::from(url),
        document: String::from(document),
    }
}

#[test]
fn submit_while_loading_is_rejected() {
    let mut s = Session::new();
    assert!(s.submit(String::from("http://a.example")));
    assert!(s.is_loading());
    // A second submission while the first is outstanding changes nothing.
    assert!(!s.submit(String::from("http://b.example")));
    assert!(s.is_loading());
    // Only one unit of work exists; one completion resolves the slot and at
    // most one terminal result materializes.
    s.poll(Some(Ok(result_for("http://a.example", "# A"))));
    assert!(!s.is_loading());
    assert_eq!(s.history_len(), 1);
    assert_eq!(s.history_entry(0).unwrap().url, "http://a.example");
}

#[test]
fn poll_without_completion_stays_loading() {
    let mut s = Session::new();
    s.submit(String::from("http://a.example"));
    s.poll(None);
    s.poll(None);
    assert!(s.is_loading());
    assert_eq!(s.history_len(), 0);
}

#[test]
fn completion_is_applied_exactly_once() {
    let mut s = Session::new();
    s.submit(String::from("http://a.example"));
    s.poll(Some(Ok(result_for("http://a.example", "# A"))));
    assert_eq!(s.history_len(), 1);
    // A later poll, whatever it carries, must not re-apply a result.
    s.poll(Some(Ok(result_for("http://a.example", "# A"))));
    s.poll(Some(Err(AdapterError::Api(String::from("late")))));
    assert_eq!(s.history_len(), 1);
    assert!(s.notice_text().is_none());
    assert!(s.is_displaying());
}

#[test]
fn success_shows_document_and_selects_entry() {
    let mut s = Session::new();
    s.submit(String::from("http://a.example"));
    s.poll(Some(Ok(result_for("http://a.example", "# A"))));
    assert_eq!(s.shown_document().as_deref(), Some("# A"));
    assert_eq!(s.selected_index(), Some(0));
    assert!(s.notice_text().is_none());
    assert!(s.is_displaying());
}

#[test]
fn failure_stores_notice_and_leaves_history_alone() {
    let mut s = Session::new();
    s.submit(String::from("http://a.example"));
    s.poll(Some(Ok(result_for("http://a.example", "# A"))));
    s.submit(String::from("http://b.example"));
    s.poll(Some(Err(AdapterError::Transport(String::from("timed out")))));
    assert!(!s.is_loading());
    assert_eq!(
        s.notice_text().as_deref(),
        Some("HTTP request failed: timed out")
    );
    assert!(s.shown_document().is_none());
    assert_eq!(s.selected_index(), None);
    assert_eq!(s.history_len(), 1);
    assert!(!s.is_displaying());
}

#[test]
fn consecutive_duplicate_results_collapse_in_history() {
    let mut s = Session::new();
    s.submit(String::from("http://x.example"));
    s.poll(Some(Ok(result_for("http://x.example", "a"))));
    s.submit(String::from("http://x.example"));
    s.poll(Some(Ok(result_for("http://x.example", "b"))));
    // The repeat append is a no-op: one entry, the first document kept.
    assert_eq!(s.history_len(), 1);
    assert_eq!(s.history_entry(0).unwrap().markdown, "a");
    assert_eq!(s.selected_index(), Some(0));
}

#[test]
fn start_new_clears_display_state() {
    let mut s = Session::new();
    s.submit(String::from("http://a.example"));
    s.poll(Some(Ok(result_for("http://a.example", "# A"))));
    s.start_new();
    assert!(!s.is_loading());
    assert!(!s.is_displaying());
    assert!(s.shown_document().is_none());
    assert!(s.notice_text().is_none());
    assert_eq!(s.selected_index(), None);
    // The history survives acknowledgment.
    assert_eq!(s.history_len(), 1);
}

fn label_of(url: &str) -> String {
    let chars = chars_of(url);
    let (from, to) = display_url_span(&chars);
    chars[from..to].iter().collect()
}

#[test]
fn history_label_shows_the_host_piece() {
    assert_eq!(label_of("http://example.com/some/path"), "example.com");
    assert_eq!(label_of("http://example.com"), "example.com");
    assert_eq!(label_of("a//b"), "b");
    // Fewer than two separators: the whole URL stands as its own label.
    assert_eq!(label_of("example.com"), "example.com");
    assert_eq!(label_of("no/host"), "no/host");
    assert_eq!(label_of(""), "");
}

#[test]
fn selecting_history_shows_that_entry() {
    let mut s = Session::new();
    s.submit(String::from("http://a.example"));
    s.poll(Some(Ok(result_for("http://a.example", "# A"))));
    s.submit(String::from("http://b.example"));
    s.poll(Some(Ok(result_for("http://b.example", "# B"))));
    assert_eq!(s.history_len(), 2);
    s.select_history(0).unwrap();
    assert_eq!(s.shown_document().as_deref(), Some("# A"));
    assert_eq!(s.selected_index(), Some(0));
    // Selection never mutates the ledger.
    assert_eq!(s.history_len(), 2);
    assert!(s.select_history(9).is_err());
    assert_eq!(s.selected_index(), Some(0));
}
