use ruscraper::coordinator::ResolveError;
use ruscraper::coordinator::ResolveStep;
use ruscraper::coordinator::ScrapeCoordinator;
use ruscraper::store::Document;

/// A fetch provider stub that counts its invocations and hands out the
/// contents it was loaded with, in order.
struct CountingProvider {
    calls: usize,
    replies: Vec<Result<String, String>>,
}

impl CountingProvider {
    fn new(replies: Vec<Result<String, String>>) -> CountingProvider {
        CountingProvider { calls: 0, replies }
    }

    fn fetch(&mut self, _url: &String) -> Result<String, String> {
        let reply = self.replies[self.calls].clone();
        self.calls += 1;
        reply
    }
}

/// One full resolution: probe the cache, fetch only on a miss.
fn resolve(
    c: &mut ScrapeCoordinator,
    provider: &mut CountingProvider,
    url: &String,
) -> Result<Document, ResolveError> {
    match c.resolve_begin(url) {
        ResolveStep::Done(d) => Ok(d),
        ResolveStep::NeedFetch => {
            let fetched = provider.fetch(url);
            c.resolve_finish(url, fetched)
        }
    }
}

#[test]
fn resolve_twice_fetches_once() {
    let mut c = ScrapeCoordinator::new();
    let mut provider = CountingProvider::new(vec![
        Ok(String::from("# First")),
        Ok(String::from("# Second")),
    ]);
    let url = String::from("http://example.com");
    let first = resolve(&mut c, &mut provider, &url).unwrap();
    let second = resolve(&mut c, &mut provider, &url).unwrap();
    assert_eq!(provider.calls, 1);
    assert_eq!(first.id, second.id);
    assert_eq!(first.url, second.url);
    assert_eq!(first.content, second.content);
    assert_eq!(second.content, "# First");
}

#[test]
fn concurrent_resolves_persist_one_record() {
    let mut c = ScrapeCoordinator::new();
    let url = String::from("http://example.com");
    // Three requests race: each probes the empty cache before any commit.
    assert!(matches!(c.resolve_begin(&url), ResolveStep::NeedFetch));
    assert!(matches!(c.resolve_begin(&url), ResolveStep::NeedFetch));
    assert!(matches!(c.resolve_begin(&url), ResolveStep::NeedFetch));
    // Each fetched distinct content; the commits land in some order.
    let a = c.resolve_finish(&url, Ok(String::from("content-a"))).unwrap();
    let b = c.resolve_finish(&url, Ok(String::from("content-b"))).unwrap();
    let d = c.resolve_finish(&url, Ok(String::from("content-c"))).unwrap();
    // Exactly one record exists and every caller received it, without error.
    assert_eq!(c.len(), 1);
    assert_eq!(a.content, "content-a");
    assert_eq!(b.content, "content-a");
    assert_eq!(d.content, "content-a");
    assert_eq!(a.id, 1);
    assert_eq!(b.id, 1);
    assert_eq!(d.id, 1);
}

#[test]
fn failed_fetch_propagates_and_stores_nothing() {
    let mut c = ScrapeCoordinator::new();
    let url = String::from("http://down.example");
    let r = c.resolve_finish(&url, Err(String::from("connection refused")));
    assert_eq!(
        r.unwrap_err(),
        ResolveError::Upstream(String::from("connection refused"))
    );
    assert_eq!(c.len(), 0);
    assert!(matches!(c.resolve_begin(&url), ResolveStep::NeedFetch));
}

#[test]
fn end_to_end_cache_scenario() {
    let mut c = ScrapeCoordinator::new();
    let mut provider = CountingProvider::new(vec![Ok(String::from("# Title"))]);
    let url = String::from("http://example.com");
    let first = resolve(&mut c, &mut provider, &url).unwrap();
    assert_eq!(first.id, 1);
    assert_eq!(first.url, "http://example.com");
    assert_eq!(first.content, "# Title");
    let second = resolve(&mut c, &mut provider, &url).unwrap();
    assert_eq!(second.id, 1);
    assert_eq!(second.content, "# Title");
    assert_eq!(provider.calls, 1);
}

#[test]
fn history_lists_resolved_documents_newest_first() {
    let mut c = ScrapeCoordinator::new();
    c.resolve_finish(&String::from("http://a.example"), Ok(String::from("a"))).unwrap();
    c.resolve_finish(&String::from("http://b.example"), Ok(String::from("b"))).unwrap();
    let listed = c.history();
    assert_eq!(listed.len(), 2);
    assert_eq!(listed[0].url, "http://b.example");
    assert_eq!(listed[1].url, "http://a.example");
    assert_eq!(c.item(1).unwrap().url, "http://a.example");
    assert!(c.item(7).is_none());
}
