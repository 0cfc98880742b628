//! The content store: durable key-value persistence keyed by source URL.
//!
//! At most one record ever exists per URL; a record's identifier is assigned
//! by the store on first insertion and never changes, and its content is
//! immutable once written (there is no update or delete operation). `put` on
//! an already-present URL is rejected with a conflict, never overwritten:
//! that rejection is the sole serialization mechanism the scrape coordinator
//! relies on under concurrent identical requests.

use vstd::prelude::*;

verus! {

/// One cached document: a scraped page stored under its source URL.
#[derive(Debug)]
pub struct Document {
    pub id: i64,
    pub url: String,
    pub content: String,
    pub created_at: String,
}

/// The mathematical value of a `Document`.
pub ghost struct DocumentView {
    pub id: int,
    pub url: Seq<char>,
    pub content: Seq<char>,
    pub created_at: Seq<char>,
}

impl View for Document {
    type V = DocumentView;

    open spec fn view(&self) -> DocumentView {
        DocumentView {
            id: self.id as int,
            url: self.url@,
            content: self.content@,
            created_at: self.created_at@,
        }
    }
}

impl Document {
    /// A field-by-field copy carrying the same mathematical value.
    pub fn duplicate(&self) -> (d: Document)
        ensures
            d@ == self@,
    {
        Document {
            id: self.id,
            url: self.url.clone(),
            content: self.content.clone(),
            created_at: self.created_at.clone(),
        }
    }
}

/// No two records share a URL.
pub open spec fn urls_unique(docs: Seq<DocumentView>) -> bool {
    forall|i: int, j: int| 0 <= i < j < docs.len() ==> docs[i].url != docs[j].url
}

/// Record identifiers are the insertion ranks, counted from 1.
pub open spec fn ids_sequential(docs: Seq<DocumentView>) -> bool {
    forall|i: int| 0 <= i < docs.len() ==> docs[i].id == i + 1
}

/// Some record holds this URL.
pub open spec fn contains_url(docs: Seq<DocumentView>, url: Seq<char>) -> bool {
    exists|i: int| 0 <= i < docs.len() && docs[i].url == url
}

/// The position of the record holding this URL (meaningful when `contains_url`
/// holds and the URLs are unique).
pub open spec fn url_index(docs: Seq<DocumentView>, url: Seq<char>) -> int {
    choose|i: int| 0 <= i < docs.len() && docs[i].url == url
}

/// The record stored for this URL.
pub open spec fn doc_for_url(docs: Seq<DocumentView>, url: Seq<char>) -> DocumentView {
    docs[url_index(docs, url)]
}

/// When the URLs of `docs` are unique, a record holding `url` at position `i`
/// is the record `doc_for_url` denotes.
pub proof fn lemma_url_index_unique(docs: Seq<DocumentView>, url: Seq<char>, i: int)
    requires
        urls_unique(docs),
        0 <= i < docs.len(),
        docs[i].url == url,
    ensures
        contains_url(docs, url),
        url_index(docs, url) == i,
        doc_for_url(docs, url) == docs[i],
{
    assert(contains_url(docs, url));
    let k = url_index(docs, url);
    assert(0 <= k < docs.len() && docs[k].url == url);
    if k < i {
        assert(docs[k].url != docs[i].url);
    }
    if k > i {
        assert(docs[i].url != docs[k].url);
    }
}

/// The way `put` can fail: the URL is already present. A conflict is a benign
/// race signal, handled by the coordinator, never surfaced to a caller.
#[derive(Debug, PartialEq, Eq)]
pub enum StoreError {
    Conflict,
}

/// An in-memory keyed store of documents, unique per URL, in insertion order.
pub struct ContentStore {
    items: Vec<Document>,
}

impl View for ContentStore {
    type V = Seq<DocumentView>;

    closed spec fn view(&self) -> Seq<DocumentView> {
        self.items@.map_values(|d: Document| d@)
    }
}

impl ContentStore {
    /// Both store invariants: unique URLs and rank-assigned identifiers.
    pub open spec fn wf(&self) -> bool {
        urls_unique(self@) && ids_sequential(self@)
    }

    /// An empty store.
    pub fn new() -> (s: ContentStore)
        ensures
            s.wf(),
            s@.len() == 0,
    {
        ContentStore { items: Vec::new() }
    }

    /// How many records are stored.
    pub fn len(&self) -> (n: usize)
        ensures
            n == self@.len(),
    {
        self.items.len()
    }

    /// Look a URL up. Finding nothing is not a fault: it signals a cache miss.
    pub fn get(&self, url: &String) -> (r: Option<&Document>)
        requires
            self.wf(),
        ensures
            r is Some <==> contains_url(self@, url@),
            r matches Some(d) ==> d@ == doc_for_url(self@, url@) && d@.url == url@,
    {
        let mut i: usize = 0;
        while i < self.items.len()
            invariant
                i <= self.items.len(),
                self.wf(),
                forall|j: int| 0 <= j < i ==> self@[j].url != url@,
            decreases self.items.len() - i,
        {
            if self.items[i].url == *url {
                proof {
                    assert(self@[i as int].url == url@);
                    lemma_url_index_unique(self@, url@, i as int);
                }
                return Some(&self.items[i]);
            }
            i += 1;
        }
        None
    }

    /// Insert a new record for `url`, or reject with `Conflict` if one exists.
    /// The record's identifier is its insertion rank and its creation time is
    /// read from the clock here, never supplied by the caller.
    pub fn put(&mut self, url: String, content: String) -> (r: Result<Document, StoreError>)
        requires
            old(self).wf(),
            old(self)@.len() < i64::MAX,
            old(self)@.len() < usize::MAX,
        ensures
            final(self).wf(),
            r is Ok <==> !contains_url(old(self)@, url@),
            contains_url(old(self)@, url@) ==> final(self)@ == old(self)@
                && r == Err::<Document, StoreError>(StoreError::Conflict),
            r matches Ok(d) ==> d@.url == url@ && d@.content == content@
                && d@.id == old(self)@.len() + 1
                && final(self)@ == old(self)@.push(d@),
    {
        if self.get(&url).is_some() {
            return Err(StoreError::Conflict);
        }
        let id = (self.items.len() + 1) as i64;
        let created_at = crate::clock::utc_now_text();
        let doc = Document { id, url, content, created_at };
        let out = doc.duplicate();
        proof {
            assert(self@.push(doc@) =~= self.items@.push(doc).map_values(|d: Document| d@));
        }
        self.items.push(doc);
        proof {
            let docs = self@;
            let n = docs.len();
            assert forall|i: int, j: int| 0 <= i < j < n implies docs[i].url != docs[j].url by {
                if j < n - 1 {
                    assert(old(self)@[i].url != old(self)@[j].url);
                } else {
                    assert(!contains_url(old(self)@, docs[j].url));
                }
            }
        }
        Ok(out)
    }

    /// All records, most recently inserted first.
    pub fn list_newest_first(&self) -> (r: Vec<Document>)
        ensures
            r@.len() == self@.len(),
            forall|i: int| 0 <= i < r@.len() ==> r@[i]@ == self@[self@.len() - 1 - i],
    {
        let mut r: Vec<Document> = Vec::new();
        let mut i: usize = self.items.len();
        while i > 0
            invariant
                i <= self.items.len(),
                r@.len() == self@.len() - i,
                forall|j: int| 0 <= j < r@.len() ==> r@[j]@ == self@[self@.len() - 1 - j],
            decreases i,
        {
            i = i - 1;
            r.push(self.items[i].duplicate());
        }
        r
    }

    /// Look a record up by its identifier: identifiers are insertion ranks,
    /// so only `1..=len` can be present.
    pub fn get_by_id(&self, id: i64) -> (r: Option<&Document>)
        requires
            self.wf(),
        ensures
            1 <= id <= self@.len() ==> (r matches Some(d) && d@ == self@[id - 1]),
            !(1 <= id <= self@.len()) ==> r is None,
    {
        if id >= 1 && (id as u64) <= (self.items.len() as u64) {
            Some(&self.items[(id - 1) as usize])
        } else {
            None
        }
    }
}

} // verus!
