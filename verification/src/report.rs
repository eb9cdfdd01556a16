//! Outcomes of single items and the tally that tells a complete run from a
//! partly complete one.

use vstd::prelude::*;

verus! {

/// The step at which an item failed.
#[derive(Clone, Copy, Debug, PartialEq, Eq, Structural)]
pub enum FailureKind {
    /// The item's URL could not be formed from the base URL.
    Url,
    /// The modification time of the local file cannot be written as a date
    /// for the conditional request.
    LocalTime,
    /// The request could not be sent, or no response came in time.
    Request,
    /// The server answered with this status, which is neither a success nor
    /// "not modified".
    Status(u16),
    /// The destination directory could not be created.
    CreateDir,
    /// The destination file could not be created.
    CreateFile,
    /// The body could not be read or written in full.
    Write,
    /// The file could not be flushed.
    Flush,
}

/// Why an item failed: the step, and what the caller reported of the error.
#[derive(Debug, PartialEq, Eq)]
pub struct Failure {
    pub kind: FailureKind,
    pub detail: String,
}

/// A [`Failure`] as a mathematical value.
pub struct FailureView {
    pub kind: FailureKind,
    pub detail: Seq<char>,
}

impl View for Failure {
    type V = FailureView;

    open spec fn view(&self) -> FailureView {
        FailureView { kind: self.kind, detail: self.detail@ }
    }
}

impl Clone for Failure {
    fn clone(&self) -> (out: Self)
        ensures
            out == *self,
    {
        Failure { kind: self.kind, detail: self.detail.clone() }
    }
}

/// The result of attempting one item.
#[derive(Debug, PartialEq, Eq)]
pub enum Outcome {
    /// The item was fetched and stored.
    Downloaded,
    /// The local copy is current; nothing was written.
    Unchanged,
    /// The item was given up.
    Failed(Failure),
}

/// An [`Outcome`] as a mathematical value.
pub enum OutcomeView {
    Downloaded,
    Unchanged,
    Failed(FailureView),
}

impl View for Outcome {
    type V = OutcomeView;

    open spec fn view(&self) -> OutcomeView {
        match self {
            Outcome::Downloaded => OutcomeView::Downloaded,
            Outcome::Unchanged => OutcomeView::Unchanged,
            Outcome::Failed(failure) => OutcomeView::Failed(failure@),
        }
    }
}

impl Clone for Outcome {
    fn clone(&self) -> (out: Self)
        ensures
            out == *self,
    {
        match self {
            Outcome::Downloaded => Outcome::Downloaded,
            Outcome::Unchanged => Outcome::Unchanged,
            Outcome::Failed(failure) => Outcome::Failed(failure.clone()),
        }
    }
}

impl Outcome {
    /// Whether the item is current on disk after the attempt.
    pub fn is_success(&self) -> (b: bool)
        ensures
            b == !(self@ is Failed),
    {
        match self {
            Outcome::Failed(_) => false,
            _ => true,
        }
    }
}

/// How a run ended.
#[derive(Clone, Copy, Debug, PartialEq, Eq, Structural)]
pub enum RunStatus {
    /// Every item discovered is current on disk.
    Complete,
    /// Some item discovered is not.
    Partial,
}

/// `a + b`, held at the largest value that a counter can show.
pub open spec fn capped(a: int, b: int) -> u64 {
    if a + b > u64::MAX {
        u64::MAX
    } else {
        (a + b) as u64
    }
}

/// The tally of a run. Each counter stops at `u64::MAX`.
#[derive(Clone, Copy, Debug, PartialEq, Eq, Structural)]
pub struct Reporter {
    /// Items discovered.
    pub total: u64,
    /// Items attempted that are current on disk: downloaded or unchanged.
    pub completed: u64,
    /// Items attempted and given up.
    pub failed: u64,
}

impl Reporter {
    /// The tally of a run in which nothing has happened yet.
    pub fn new() -> (r: Reporter)
        ensures
            r == (Reporter { total: 0, completed: 0, failed: 0 }),
    {
        Reporter { total: 0, completed: 0, failed: 0 }
    }

    /// Counts `n` more items as discovered.
    pub fn expect(&mut self, n: u64)
        ensures
            *final(self) == (Reporter { total: capped(old(self).total as int, n as int), ..*old(self) }),
    {
        self.total = self.total.saturating_add(n);
    }

    /// Counts one attempted item by its outcome.
    pub fn record(&mut self, outcome: &Outcome)
        ensures
            *final(self) == if outcome@ is Failed {
                Reporter { failed: capped(old(self).failed as int, 1), ..*old(self) }
            } else {
                Reporter { completed: capped(old(self).completed as int, 1), ..*old(self) }
            },
    {
        if outcome.is_success() {
            self.completed = self.completed.saturating_add(1);
        } else {
            self.failed = self.failed.saturating_add(1);
        }
    }

    /// Whether every item discovered has been attempted.
    pub fn all_reported(&self) -> (b: bool)
        ensures
            b == (self.completed + self.failed >= self.total),
    {
        self.failed >= self.total || self.completed >= self.total - self.failed
    }

    /// How a run with this tally ended: complete where as many items are
    /// current on disk as were discovered.
    pub open spec fn status_of(self) -> RunStatus {
        if self.completed == self.total {
            RunStatus::Complete
        } else {
            RunStatus::Partial
        }
    }

    /// Once every item discovered has been attempted once, the run is
    /// complete exactly where no item failed.
    pub proof fn lemma_complete_without_failure(self)
        requires
            self.completed + self.failed == self.total,
        ensures
            self.status_of() == RunStatus::Complete <==> self.failed == 0,
    {
    }

    /// How the run ended.
    pub fn status(&self) -> (status: RunStatus)
        ensures
            status == self.status_of(),
    {
        if self.completed == self.total {
            RunStatus::Complete
        } else {
            RunStatus::Partial
        }
    }
}

} // verus!
