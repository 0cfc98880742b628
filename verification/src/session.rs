//! The client session: a single-slot asynchronous task tracker driving the
//! Idle → Loading → Ready/Failed state machine, the history ledger it feeds,
//! and the selection state the UI renders.
//!
//! At most one unit of work is tracked at a time. The UI thread never
//! blocks: once per tick it hands `poll` whatever the background unit of
//! work has produced so far (`None` while still running), and `poll` applies
//! a completion exactly once. Entering `Ready` appends to the history
//! (subject to consecutive de-duplication) and selects the appended entry;
//! entering `Failed` leaves the history untouched and clears the selection.

use vstd::prelude::*;

use crate::adapter::AdapterError;
use crate::adapter::DomainResult;
use crate::adapter::ResultView;
use crate::adapter::adapter_message;
use crate::ledger::EntryView;
use crate::ledger::HistoryEntry;
use crate::ledger::HistoryLedger;
use crate::ledger::LedgerError;
use crate::ledger::ledger_append;
use crate::text::find_nth;
use crate::text::lemma_nth_positions_ordered;
use crate::text::nth_position;

verus! {

/// The task slot: no submission, one outstanding, or resolved for this
/// submission. `Ready` and `Failed` are terminal until the user acknowledges
/// or submits anew.
pub enum TaskState {
    Idle,
    Loading { url: String },
    Ready { result: DomainResult },
    Failed { message: String },
}

/// The mathematical value of a `TaskState`.
pub ghost enum TaskView {
    Idle,
    Loading(Seq<char>),
    Ready(ResultView),
    Failed(Seq<char>),
}

impl View for TaskState {
    type V = TaskView;

    open spec fn view(&self) -> TaskView {
        match self {
            TaskState::Idle => TaskView::Idle,
            TaskState::Loading { url } => TaskView::Loading(url@),
            TaskState::Ready { result } => TaskView::Ready(result@),
            TaskState::Failed { message } => TaskView::Failed(message@),
        }
    }
}

/// The mathematical value of a whole `Session`.
pub ghost struct SessionView {
    pub task: TaskView,
    pub history: Seq<EntryView>,
    pub selected: Option<int>,
    pub shown: Option<Seq<char>>,
    pub notice: Option<Seq<char>>,
    pub displaying: bool,
}

/// The session after a submission of `url`: rejected outright while a unit
/// of work is outstanding; otherwise the slot starts loading and the display
/// state is cleared for the new request.
pub open spec fn submit_step(v: SessionView, url: Seq<char>) -> SessionView {
    if v.task is Loading {
        v
    } else {
        SessionView {
            task: TaskView::Loading(url),
            history: v.history,
            selected: None,
            shown: None,
            notice: None,
            displaying: false,
        }
    }
}

/// The session after one poll observing `c`: a no-op unless a unit of work
/// is outstanding and has completed. A success appends to the history
/// (consecutive duplicates collapse) and selects the entry now standing for
/// the URL; a failure stores the display message and clears the selection
/// without touching the history.
pub open spec fn poll_step(v: SessionView, c: Option<Result<ResultView, Seq<char>>>) -> SessionView {
    if !(v.task is Loading) {
        v
    } else {
        match c {
            None => v,
            Some(Ok(d)) => SessionView {
                task: TaskView::Ready(d),
                history: ledger_append(v.history, d.url, d.document),
                selected: Some(ledger_append(v.history, d.url, d.document).len() - 1),
                shown: Some(d.document),
                notice: None,
                displaying: true,
            },
            Some(Err(m)) => SessionView {
                task: TaskView::Failed(m),
                history: v.history,
                selected: None,
                shown: None,
                notice: Some(m),
                displaying: false,
            },
        }
    }
}

/// The session after the user acknowledges a terminal result ("start new"):
/// back to an interactive Idle slot with cleared display state. Meaningless
/// while loading, hence a no-op then.
pub open spec fn start_new_step(v: SessionView) -> SessionView {
    if v.task is Loading {
        v
    } else {
        SessionView {
            task: TaskView::Idle,
            history: v.history,
            selected: None,
            shown: None,
            notice: None,
            displaying: false,
        }
    }
}

/// The session after selecting history entry `index`: the selection moves
/// and the entry's document is shown; the ledger itself never changes. Out
/// of range, nothing happens.
pub open spec fn select_step(v: SessionView, index: int) -> SessionView {
    if 0 <= index < v.history.len() {
        SessionView {
            task: v.task,
            history: v.history,
            selected: Some(index),
            shown: Some(v.history[index].markdown),
            notice: None,
            displaying: v.displaying,
        }
    } else {
        v
    }
}

/// What the poll's input looks like at the mathematical level: a failure is
/// carried as the display message the UI will store.
pub open spec fn completion_view(c: Option<Result<DomainResult, AdapterError>>) -> Option<
    Result<ResultView, Seq<char>>,
> {
    match c {
        None => None,
        Some(Ok(d)) => Some(Ok(d@)),
        Some(Err(e)) => Some(Err(adapter_message(e))),
    }
}

/// One UI session: the task slot, the history it feeds, and what is shown.
pub struct Session {
    task: TaskState,
    history: HistoryLedger,
    selected: Option<usize>,
    shown: Option<String>,
    notice: Option<String>,
    displaying: bool,
}

impl View for Session {
    type V = SessionView;

    closed spec fn view(&self) -> SessionView {
        SessionView {
            task: self.task@,
            history: self.history@,
            selected: match self.selected {
                Some(i) => Some(i as int),
                None => None,
            },
            shown: match self.shown {
                Some(s) => Some(s@),
                None => None,
            },
            notice: match self.notice {
                Some(s) => Some(s@),
                None => None,
            },
            displaying: self.displaying,
        }
    }
}

impl Session {
    /// A fresh session: idle, empty history, nothing shown.
    pub fn new() -> (s: Session)
        ensures
            s@.task is Idle,
            s@.history.len() == 0,
            s@.selected is None,
            s@.shown is None,
            s@.notice is None,
            !s@.displaying,
    {
        Session {
            task: TaskState::Idle,
            history: HistoryLedger::new(),
            selected: None,
            shown: None,
            notice: None,
            displaying: false,
        }
    }

    /// Whether a unit of work is outstanding.
    pub fn is_loading(&self) -> (b: bool)
        ensures
            b == (self@.task is Loading),
    {
        match &self.task {
            TaskState::Loading { .. } => true,
            _ => false,
        }
    }

    /// Submit a URL. Accepted from Idle or a terminal state; rejected (a
    /// no-op) while a unit of work is outstanding.
    pub fn submit(&mut self, url: String) -> (accepted: bool)
        ensures
            final(self)@ == submit_step(old(self)@, url@),
            accepted == !(old(self)@.task is Loading),
    {
        match &self.task {
            TaskState::Loading { .. } => false,
            _ => {
                self.task = TaskState::Loading { url };
                self.selected = None;
                self.shown = None;
                self.notice = None;
                self.displaying = false;
                true
            },
        }
    }

    /// One non-blocking poll per UI tick: `completion` is whatever the
    /// outstanding unit of work has produced so far (`None` while still
    /// running). Applies a completion exactly once; polls in any other state
    /// change nothing.
    pub fn poll(&mut self, completion: Option<Result<DomainResult, AdapterError>>)
        requires
            old(self)@.history.len() < usize::MAX,
        ensures
            final(self)@ == poll_step(old(self)@, completion_view(completion)),
    {
        match &self.task {
            TaskState::Loading { .. } => {},
            _ => {
                return;
            },
        }
        match completion {
            None => {},
            Some(Ok(d)) => {
                let shown = d.document.clone();
                let idx = self.history.append(d.url.clone(), d.document.clone());
                self.selected = Some(idx);
                self.shown = Some(shown);
                self.notice = None;
                self.displaying = true;
                self.task = TaskState::Ready { result: d };
            },
            Some(Err(e)) => {
                let m = e.message();
                self.notice = Some(m.clone());
                self.task = TaskState::Failed { message: m };
                self.selected = None;
                self.shown = None;
                self.displaying = false;
            },
        }
    }

    /// Acknowledge a terminal result and return to an interactive Idle slot.
    pub fn start_new(&mut self)
        ensures
            final(self)@ == start_new_step(old(self)@),
    {
        match &self.task {
            TaskState::Loading { .. } => {},
            _ => {
                self.task = TaskState::Idle;
                self.selected = None;
                self.shown = None;
                self.notice = None;
                self.displaying = false;
            },
        }
    }

    /// Select a history entry to display. `OutOfRange` iff the index names
    /// no entry; the ledger itself is never mutated by selection.
    pub fn select_history(&mut self, index: usize) -> (r: Result<(), LedgerError>)
        ensures
            final(self)@ == select_step(old(self)@, index as int),
            r is Ok <==> index < old(self)@.history.len(),
    {
        let markdown = match self.history.select(index) {
            Ok(e) => e.markdown.clone(),
            Err(err) => {
                return Err(err);
            },
        };
        self.selected = Some(index);
        self.shown = Some(markdown);
        self.notice = None;
        Ok(())
    }

    /// Read one history entry.
    pub fn history_entry(&self, index: usize) -> (r: Result<&HistoryEntry, LedgerError>)
        ensures
            index < self@.history.len() ==> (r matches Ok(e) && e@ == self@.history[index as int]),
            index >= self@.history.len() ==> r is Err,
    {
        self.history.select(index)
    }

    /// How many history entries exist.
    pub fn history_len(&self) -> (n: usize)
        ensures
            n == self@.history.len(),
    {
        self.history.len()
    }

    /// The document currently shown, if any.
    pub fn shown_document(&self) -> (r: &Option<String>)
        ensures
            r is Some <==> self@.shown is Some,
            r matches Some(s) ==> self@.shown == Some(s@),
    {
        &self.shown
    }

    /// The failure notice currently shown, if any.
    pub fn notice_text(&self) -> (r: &Option<String>)
        ensures
            r is Some <==> self@.notice is Some,
            r matches Some(s) ==> self@.notice == Some(s@),
    {
        &self.notice
    }

    /// The selected history index, if any.
    pub fn selected_index(&self) -> (r: Option<usize>)
        ensures
            r is Some <==> self@.selected is Some,
            r matches Some(i) ==> self@.selected == Some(i as int),
    {
        self.selected
    }

    /// Whether the UI is presenting a completed result.
    pub fn is_displaying(&self) -> (b: bool)
        ensures
            b == self@.displaying,
    {
        self.displaying
    }
}

/// The span of `url`'s characters shown as a history entry's label: the
/// third '/'-separated piece — the host of a typical URL — or the whole URL
/// when it has fewer than two separators.
pub open spec fn display_span(url: Seq<char>) -> (int, int) {
    let second = nth_position(url, '/', 1);
    if second < url.len() {
        (second + 1, nth_position(url, '/', 2))
    } else {
        (0, url.len() as int)
    }
}

/// Compute which characters of `url` the history panel shows as the entry's
/// label. The caller renders `url[span.0 .. span.1]`.
pub fn display_url_span(url: &Vec<char>) -> (span: (usize, usize))
    ensures
        (span.0 as int, span.1 as int) == display_span(url@),
        span.0 <= span.1 <= url@.len(),
{
    let second = find_nth(url, '/', 1);
    if second < url.len() {
        let third = find_nth(url, '/', 2);
        proof {
            if third < url@.len() {
                lemma_nth_positions_ordered(url@, '/', 1, 2);
            }
        }
        (second + 1, third)
    } else {
        (0, url.len())
    }
}

/// Task-slot single flight: the slot tracks at most one outstanding unit of
/// work, so two Loading states can never coexist. Submitting `a` starts the
/// one unit of work, and submitting `b` before `a`'s completion is polled
/// changes nothing at all: `b` neither loads nor can ever materialize a
/// terminal entry.
pub proof fn lemma_submit_single_flight(v: SessionView, a: Seq<char>, b: Seq<char>)
    requires
        !(v.task is Loading),
    ensures
        submit_step(v, a).task == TaskView::Loading(a),
        submit_step(submit_step(v, a), b) == submit_step(v, a),
{
}

/// Exactly-once completion: the first poll that observes a completion moves
/// the slot out of Loading, and every later poll — whatever it observes —
/// is a no-op. A completion is therefore applied at most once per
/// submission: at most one terminal state and at most one history append
/// materialize.
pub proof fn lemma_completion_applied_once(
    v: SessionView,
    r: Result<ResultView, Seq<char>>,
    c2: Option<Result<ResultView, Seq<char>>>,
)
    requires
        v.task is Loading,
    ensures
        !(poll_step(v, Some(r)).task is Loading),
        poll_step(poll_step(v, Some(r)), c2) == poll_step(v, Some(r)),
{
}

} // verus!
