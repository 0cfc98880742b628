//! The history ledger: an append-only, in-memory ordered sequence of
//! completed results, keyed by URL.
//!
//! Appending an entry whose URL equals the most recently appended entry's
//! URL is a no-op — consecutive de-duplication only, never global: the same
//! URL may well appear again later with another entry in between. Selection
//! reads the ledger and never mutates it.

use vstd::prelude::*;

verus! {

/// One completed result as it entered the history.
#[derive(Debug)]
pub struct HistoryEntry {
    pub url: String,
    pub markdown: String,
}

/// The mathematical value of a `HistoryEntry`.
pub ghost struct EntryView {
    pub url: Seq<char>,
    pub markdown: Seq<char>,
}

impl View for HistoryEntry {
    type V = EntryView;

    open spec fn view(&self) -> EntryView {
        EntryView { url: self.url@, markdown: self.markdown@ }
    }
}

/// The way `select` can fail: the index names no entry.
#[derive(Debug, PartialEq, Eq, Structural)]
pub enum LedgerError {
    OutOfRange,
}

/// The ledger contents after appending `(url, markdown)`: unchanged when
/// `url` equals the last entry's URL, extended by the new entry otherwise.
/// A de-duplicated append keeps the earlier entry's markdown.
pub open spec fn ledger_append(entries: Seq<EntryView>, url: Seq<char>, markdown: Seq<char>) -> Seq<
    EntryView,
> {
    if entries.len() > 0 && entries.last().url == url {
        entries
    } else {
        entries.push(EntryView { url, markdown })
    }
}

/// The ordered history of completed results.
pub struct HistoryLedger {
    entries: Vec<HistoryEntry>,
}

impl View for HistoryLedger {
    type V = Seq<EntryView>;

    closed spec fn view(&self) -> Seq<EntryView> {
        self.entries@.map_values(|e: HistoryEntry| e@)
    }
}

impl HistoryLedger {
    /// An empty ledger.
    pub fn new() -> (l: HistoryLedger)
        ensures
            l@.len() == 0,
    {
        HistoryLedger { entries: Vec::new() }
    }

    /// How many entries the ledger holds.
    pub fn len(&self) -> (n: usize)
        ensures
            n == self@.len(),
    {
        self.entries.len()
    }

    /// Append a completed result, unless its URL repeats the last entry's.
    /// Returns the index of the entry now standing for `url`: the fresh one,
    /// or the existing last entry when the append de-duplicated.
    pub fn append(&mut self, url: String, markdown: String) -> (idx: usize)
        requires
            old(self)@.len() < usize::MAX,
        ensures
            final(self)@ == ledger_append(old(self)@, url@, markdown@),
            final(self)@.len() > 0,
            idx == final(self)@.len() - 1,
            final(self)@.last().url == url@,
    {
        if self.entries.len() > 0 {
            let last_i = self.entries.len() - 1;
            if self.entries[last_i].url == url {
                return last_i;
            }
        }
        let entry = HistoryEntry { url, markdown };
        proof {
            assert(self@.push(entry@) =~= self.entries@.push(entry).map_values(
                |e: HistoryEntry| e@,
            ));
        }
        self.entries.push(entry);
        self.entries.len() - 1
    }

    /// Read the entry at `index`; `OutOfRange` iff the index names none.
    pub fn select(&self, index: usize) -> (r: Result<&HistoryEntry, LedgerError>)
        ensures
            index < self@.len() ==> (r matches Ok(e) && e@ == self@[index as int]),
            index >= self@.len() ==> r == Err::<&HistoryEntry, LedgerError>(
                LedgerError::OutOfRange,
            ),
    {
        if index < self.entries.len() {
            Ok(&self.entries[index])
        } else {
            Err(LedgerError::OutOfRange)
        }
    }
}

/// Consecutive de-duplication: appending a second result for the same URL
/// immediately after a first is a no-op, whatever the two documents are —
/// the ledger keeps the first entry and nothing else changes.
pub proof fn lemma_append_consecutive_dedup(
    entries: Seq<EntryView>,
    url: Seq<char>,
    d1: Seq<char>,
    d2: Seq<char>,
)
    ensures
        ledger_append(ledger_append(entries, url, d1), url, d2) == ledger_append(
            entries,
            url,
            d1,
        ),
{
    let once = ledger_append(entries, url, d1);
    assert(once.len() > 0 && once.last().url == url);
}

/// De-duplication is only consecutive: with an append for a different URL in
/// between, the same URL enters the ledger a second time — all three appends
/// materialize.
pub proof fn lemma_append_between_distinct(
    entries: Seq<EntryView>,
    x: Seq<char>,
    y: Seq<char>,
    d1: Seq<char>,
    d2: Seq<char>,
    d3: Seq<char>,
)
    requires
        x != y,
        entries.len() == 0 || entries.last().url != x,
    ensures
        ledger_append(ledger_append(ledger_append(entries, x, d1), y, d2), x, d3) == entries + seq![
            EntryView { url: x, markdown: d1 },
            EntryView { url: y, markdown: d2 },
            EntryView { url: x, markdown: d3 },
        ],
{
    let once = ledger_append(entries, x, d1);
    assert(once == entries.push(EntryView { url: x, markdown: d1 }));
    let twice = ledger_append(once, y, d2);
    assert(twice == once.push(EntryView { url: y, markdown: d2 }));
    let thrice = ledger_append(twice, x, d3);
    assert(thrice == twice.push(EntryView { url: x, markdown: d3 }));
    assert(thrice =~= entries + seq![
        EntryView { url: x, markdown: d1 },
        EntryView { url: y, markdown: d2 },
        EntryView { url: x, markdown: d3 },
    ]);
}

} // verus!
