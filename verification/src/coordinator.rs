//! The scrape coordinator: a read-through cache over the content store.
//!
//! `resolve` is split into two verified phases around the single outside
//! effect, the upstream fetch, which the caller performs:
//!
//! 1. [`ScrapeCoordinator::resolve_begin`] probes the cache. A hit ends the
//!    resolution at once, with no fetch.
//! 2. On a miss the caller invokes its fetch provider and hands the outcome
//!    to [`ScrapeCoordinator::resolve_finish`], which persists a fetched
//!    document — or, if a concurrent resolution of the same URL won the race
//!    in the meantime, discards the fetched content and returns the record
//!    that is now present. A conflict is never surfaced.
//!
//! A failed fetch never touches the store.

use vstd::prelude::*;

use crate::store::ContentStore;
use crate::store::Document;
use crate::store::DocumentView;
use crate::store::StoreError;
use crate::store::contains_url;
use crate::store::doc_for_url;
use crate::store::ids_sequential;
use crate::store::lemma_url_index_unique;
use crate::store::urls_unique;

verus! {

/// What probing the cache decided: the stored document, or the need to fetch.
pub enum ResolveStep {
    Done(Document),
    NeedFetch,
}

/// How a resolution can fail. The coordinator itself only ever propagates an
/// upstream fetch failure; the storage variant exists for callers whose
/// backing store can fail on its own.
#[derive(Debug, PartialEq, Eq)]
pub enum ResolveError {
    Upstream(String),
    Storage(String),
}

/// The store contents after one resolution tries to commit document `d`:
/// if a record for `d.url` is already present the commit is absorbed,
/// otherwise `d` is appended.
pub open spec fn store_after_commit(docs: Seq<DocumentView>, d: DocumentView) -> Seq<DocumentView> {
    if contains_url(docs, d.url) {
        docs
    } else {
        docs.push(d)
    }
}

/// How many records hold `url`.
pub open spec fn count_for_url(docs: Seq<DocumentView>, url: Seq<char>) -> nat
    decreases docs.len(),
{
    if docs.len() == 0 {
        0
    } else {
        count_for_url(docs.drop_last(), url) + if docs.last().url == url {
            1nat
        } else {
            0nat
        }
    }
}

/// A URL held by no record is counted zero times.
proof fn lemma_count_zero(docs: Seq<DocumentView>, url: Seq<char>)
    requires
        !contains_url(docs, url),
    ensures
        count_for_url(docs, url) == 0,
    decreases docs.len(),
{
    if docs.len() > 0 {
        assert(docs.last().url != url);
        assert forall|i: int| 0 <= i < docs.drop_last().len()
            implies docs.drop_last()[i].url != url by {
            assert(docs[i].url != url);
        }
        lemma_count_zero(docs.drop_last(), url);
    }
}

/// The read-through cache orchestrator. It exclusively owns the content
/// store; correctness under concurrent identical requests is delegated to
/// the store's uniqueness constraint.
pub struct ScrapeCoordinator {
    store: ContentStore,
}

impl View for ScrapeCoordinator {
    type V = Seq<DocumentView>;

    closed spec fn view(&self) -> Seq<DocumentView> {
        self.store@
    }
}

impl ScrapeCoordinator {
    /// The owned store's invariants hold.
    pub open spec fn wf(&self) -> bool {
        urls_unique(self@) && ids_sequential(self@)
    }

    /// A coordinator over an empty store.
    pub fn new() -> (c: ScrapeCoordinator)
        ensures
            c.wf(),
            c@.len() == 0,
    {
        ScrapeCoordinator { store: ContentStore::new() }
    }

    /// How many documents are cached.
    pub fn len(&self) -> (n: usize)
        ensures
            n == self@.len(),
    {
        self.store.len()
    }

    /// Probe the cache for `url`. A hit returns the stored document and the
    /// resolution is over: no fetch happens. A miss asks the caller to fetch.
    pub fn resolve_begin(&self, url: &String) -> (r: ResolveStep)
        requires
            self.wf(),
        ensures
            contains_url(self@, url@) ==> (r matches ResolveStep::Done(d)
                && d@ == doc_for_url(self@, url@)),
            !contains_url(self@, url@) ==> r is NeedFetch,
    {
        match self.store.get(url) {
            Some(d) => ResolveStep::Done(d.duplicate()),
            None => ResolveStep::NeedFetch,
        }
    }

    /// Commit the outcome of the caller's fetch for `url`.
    ///
    /// A fetch failure is propagated verbatim as `Upstream` and the store is
    /// left untouched. Fetched content is inserted under `url` — unless a
    /// concurrent resolution already inserted a record for `url`, in which
    /// case the fetched content is discarded and the present record returned.
    /// Whenever the fetch succeeded the caller receives a stored document.
    pub fn resolve_finish(&mut self, url: &String, fetched: Result<String, String>) -> (r:
        Result<Document, ResolveError>)
        requires
            old(self).wf(),
            old(self)@.len() < i64::MAX,
            old(self)@.len() < usize::MAX,
        ensures
            final(self).wf(),
            r is Ok <==> fetched is Ok,
            fetched matches Err(detail) ==> final(self)@ == old(self)@
                && r == Err::<Document, ResolveError>(ResolveError::Upstream(detail)),
            fetched matches Ok(c) ==> (r matches Ok(d)
                && d@.url == url@
                && final(self)@ == store_after_commit(old(self)@, d@)
                && (contains_url(old(self)@, url@) ==> d@ == doc_for_url(old(self)@, url@)
                    && final(self)@ == old(self)@)
                && (!contains_url(old(self)@, url@) ==> d@.content == c@
                    && d@.id == old(self)@.len() + 1)),
    {
        let content = match fetched {
            Ok(c) => c,
            Err(detail) => {
                return Err(ResolveError::Upstream(detail));
            },
        };
        match self.store.put(url.clone(), content) {
            Ok(d) => Ok(d),
            Err(StoreError::Conflict) => {
                match self.store.get(url) {
                    Some(d) => Ok(d.duplicate()),
                    None => vstd::pervasive::unreached(),
                }
            },
        }
    }

    /// All cached documents, most recently inserted first.
    pub fn history(&self) -> (r: Vec<Document>)
        ensures
            r@.len() == self@.len(),
            forall|i: int| 0 <= i < r@.len() ==> r@[i]@ == self@[self@.len() - 1 - i],
    {
        self.store.list_newest_first()
    }

    /// One cached document by its identifier, if that identifier was ever
    /// assigned.
    pub fn item(&self, id: i64) -> (r: Option<&Document>)
        requires
            self.wf(),
        ensures
            1 <= id <= self@.len() ==> (r matches Some(d) && d@ == self@[id - 1]),
            !(1 <= id <= self@.len()) ==> r is None,
    {
        self.store.get_by_id(id)
    }
}

/// Idempotent cache hit: once one resolution has committed a document for a
/// URL — or was absorbed because one was already present — the store holds a
/// record for that URL, so a later resolution of the same URL is a pure cache
/// hit: it needs no fetch and yields exactly the stored document. Uniqueness
/// of URLs is preserved by every commit.
pub proof fn lemma_second_resolve_hits(docs: Seq<DocumentView>, d: DocumentView)
    requires
        urls_unique(docs),
    ensures
        contains_url(store_after_commit(docs, d), d.url),
        doc_for_url(store_after_commit(docs, d), d.url) == if contains_url(docs, d.url) {
            doc_for_url(docs, d.url)
        } else {
            d
        },
        urls_unique(store_after_commit(docs, d)),
{
    if !contains_url(docs, d.url) {
        let next = docs.push(d);
        assert(next[docs.len() as int] == d);
        assert forall|i: int, j: int| 0 <= i < j < next.len()
            implies next[i].url != next[j].url by {
            if j < docs.len() {
                assert(docs[i].url != docs[j].url);
            } else {
                assert(next[i] == docs[i]);
                assert(docs[i].url != d.url);
            }
        }
        lemma_url_index_unique(next, d.url, docs.len() as int);
    }
}

/// The store contents after a row of resolutions of the same URL each try to
/// commit, in order.
pub open spec fn store_after_commits(docs: Seq<DocumentView>, commits: Seq<DocumentView>) -> Seq<
    DocumentView,
>
    decreases commits.len(),
{
    if commits.len() == 0 {
        docs
    } else {
        store_after_commits(store_after_commit(docs, commits[0]), commits.drop_first())
    }
}

/// Once a record for `url` is present, every later commit for `url` is
/// absorbed: the store does not change again.
proof fn lemma_commits_absorbed(docs: Seq<DocumentView>, commits: Seq<DocumentView>, url: Seq<char>)
    requires
        contains_url(docs, url),
        forall|i: int| 0 <= i < commits.len() ==> commits[i].url == url,
    ensures
        store_after_commits(docs, commits) == docs,
    decreases commits.len(),
{
    if commits.len() > 0 {
        assert(commits[0].url == url);
        assert(store_after_commit(docs, commits[0]) == docs);
        lemma_commits_absorbed(docs, commits.drop_first(), url);
    }
}

/// Race tolerance: any number of concurrent resolutions of one URL that all
/// missed an empty slot and then commit fetched documents in any completion
/// order leave exactly one record for that URL — the first committer's — and
/// URL uniqueness intact; every later commit is absorbed, and (by
/// `lemma_second_resolve_hits`) every absorbed caller still receives the one
/// stored document.
pub proof fn lemma_race_tolerance(docs: Seq<DocumentView>, url: Seq<char>, commits: Seq<
    DocumentView,
>)
    requires
        urls_unique(docs),
        !contains_url(docs, url),
        commits.len() > 0,
        forall|i: int| 0 <= i < commits.len() ==> commits[i].url == url,
    ensures
        store_after_commits(docs, commits) == docs.push(commits[0]),
        count_for_url(store_after_commits(docs, commits), url) == 1,
        urls_unique(store_after_commits(docs, commits)),
{
    assert(commits[0].url == url);
    lemma_second_resolve_hits(docs, commits[0]);
    let first = docs.push(commits[0]);
    assert(store_after_commit(docs, commits[0]) == first);
    lemma_commits_absorbed(first, commits.drop_first(), url);
    lemma_count_zero(docs, url);
    assert(first.drop_last() =~= docs);
    assert(count_for_url(first, url) == 1);
}

} // verus!
