use ruscraper::store::ContentStore;
use ruscraper::store::StoreError;

#[test]
fn put_then_get_returns_record() {
    let mut s = ContentStore::new();
    let url = String::from("http://example.com");
    let d = s.put(url.clone(), String::from("# Title")).unwrap();
    assert_eq!(d.id, 1);
    assert_eq!(d.url, "http://example.com");
    assert_eq!(d.content, "# Title");
    let got = s.get(&url).unwrap();
    assert_eq!(got.id, 1);
    assert_eq!(got.content, "# Title");
}

#[test]
fn get_on_empty_store_is_none() {
    let s = ContentStore::new();
    assert!(s.get(&String::from("http://absent.example")).is_none());
}

#[test]
fn put_same_url_twice_is_conflict() {
    let mut s = ContentStore::new();
    let url = String::from("http://example.com");
    s.put(url.clone(), String::from("first")).unwrap();
    let second = s.put(url.clone(), String::from("second"));
    assert_eq!(second.unwrap_err(), StoreError::Conflict);
    assert_eq!(s.len(), 1);
    assert_eq!(s.get(&url).unwrap().content, "first");
}

#[test]
fn ids_are_insertion_ranks() {
    let mut s = ContentStore::new();
    let a = s.put(String::from("http://a.example"), String::from("a")).unwrap();
    let b = s.put(String::from("http://b.example"), String::from("b")).unwrap();
    let c = s.put(String::from("http://c.example"), String::from("c")).unwrap();
    assert_eq!((a.id, b.id, c.id), (1, 2, 3));
}

#[test]
fn list_newest_first_reverses_insertion_order() {
    let mut s = ContentStore::new();
    s.put(String::from("http://a.example"), String::from("a")).unwrap();
    s.put(String::from("http://b.example"), String::from("b")).unwrap();
    s.put(String::from("http://c.example"), String::from("c")).unwrap();
    let listed = s.list_newest_first();
    let urls: Vec<&str> = listed.iter().map(|d| d.url.as_str()).collect();
    assert_eq!(urls, vec!["http://c.example", "http://b.example", "http://a.example"]);
}

#[test]
fn get_by_id_finds_assigned_ids_only() {
    let mut s = ContentStore::new();
    s.put(String::from("http://a.example"), String::from("a")).unwrap();
    s.put(String::from("http://b.example"), String::from("b")).unwrap();
    assert_eq!(s.get_by_id(2).unwrap().url, "http://b.example");
    assert!(s.get_by_id(0).is_none());
    assert!(s.get_by_id(3).is_none());
    assert!(s.get_by_id(-5).is_none());
}

#[test]
fn created_at_is_assigned_by_the_store() {
    let mut s = ContentStore::new();
    let d = s.put(String::from("http://a.example"), String::from("a")).unwrap();
    assert!(!d.created_at.is_empty());
}
