//! One worker of the pool: take an item from the queue, have it downloaded,
//! take the next; stop at the stop signal.

use crate::item_id::ItemId;
use crate::report::{Outcome, OutcomeView};
use vstd::prelude::*;

verus! {

/// The size of the worker pool.
pub const WORKERS: usize = 4;

/// The number of places that the work queue has for each worker.
pub const QUEUE_SLOTS_PER_WORKER: usize = 64;

/// The number of seconds after which a request is given up.
pub const REQUEST_TIMEOUT_SECS: u64 = 10;

/// The number of seconds that downloads under way are given to end when the
/// run is over.
pub const SHUTDOWN_GRACE_SECS: u64 = 10;

/// The capacity of the work queue for a pool of `workers` workers: in
/// proportion to the pool. `None` where the product does not fit.
pub fn queue_capacity(workers: usize) -> (capacity: Option<usize>)
    ensures
        capacity == if QUEUE_SLOTS_PER_WORKER * workers <= usize::MAX {
            Some((QUEUE_SLOTS_PER_WORKER * workers) as usize)
        } else {
            None
        },
{
    QUEUE_SLOTS_PER_WORKER.checked_mul(workers)
}

/// Where a worker stands.
#[derive(Clone, Copy, Debug, PartialEq, Eq, Structural)]
pub enum WorkerPhase {
    /// The worker waits for an item from the queue.
    Idle,
    /// The worker has an item; its download is under way.
    Busy,
    /// The worker has ended.
    Stopped,
}

/// A worker's state as a mathematical value.
#[verifier::ext_equal]
pub struct WorkerState {
    pub phase: WorkerPhase,
    /// The item under way while `Busy`; empty otherwise.
    pub current: Seq<char>,
}

/// What can happen to a worker.
pub enum WorkerEvent {
    /// The queue delivered this item.
    Received(Seq<char>),
    /// The queue is closed and empty.
    QueueClosed,
    /// The download of the current item ended with this outcome.
    Finished(OutcomeView),
}

/// What a worker asks its caller to do.
pub enum WorkerAction {
    /// Take the next item from the queue.
    Receive,
    /// Download `item` and report how it ended.
    Download { item: ItemId },
    /// End.
    Exit,
}

/// A [`WorkerAction`] as a mathematical value.
pub enum WorkerActionView {
    Receive,
    Download { item: Seq<char> },
    Exit,
}

impl View for WorkerAction {
    type V = WorkerActionView;

    open spec fn view(&self) -> WorkerActionView {
        match self {
            WorkerAction::Receive => WorkerActionView::Receive,
            WorkerAction::Download { item } => WorkerActionView::Download { item: item@ },
            WorkerAction::Exit => WorkerActionView::Exit,
        }
    }
}

/// A worker that has just been started.
pub open spec fn idle() -> WorkerState {
    WorkerState { phase: WorkerPhase::Idle, current: Seq::<char>::empty() }
}

/// The transition function. An event that does not answer the action that
/// the state asks for leaves the state as it is.
pub open spec fn work_step(s: WorkerState, e: WorkerEvent) -> WorkerState {
    match (s.phase, e) {
        (WorkerPhase::Idle, WorkerEvent::Received(item)) => if item.len() == 0 {
            WorkerState { phase: WorkerPhase::Stopped, current: Seq::<char>::empty() }
        } else {
            WorkerState { phase: WorkerPhase::Busy, current: item }
        },
        (WorkerPhase::Idle, WorkerEvent::QueueClosed) => WorkerState {
            phase: WorkerPhase::Stopped,
            current: Seq::<char>::empty(),
        },
        (WorkerPhase::Busy, WorkerEvent::Finished(_)) => idle(),
        _ => s,
    }
}

/// The action that a state asks for.
pub open spec fn work_of(s: WorkerState) -> WorkerActionView {
    match s.phase {
        WorkerPhase::Idle => WorkerActionView::Receive,
        WorkerPhase::Busy => WorkerActionView::Download { item: s.current },
        WorkerPhase::Stopped => WorkerActionView::Exit,
    }
}

/// A failed download does not stop the worker: whatever the outcome of the
/// item under way, the worker takes the next item from the queue and has it
/// downloaded. One attempt is made per item: no outcome sends the worker
/// back to the item it has just finished.
pub proof fn lemma_failure_is_isolated(s: WorkerState, outcome: OutcomeView, next: Seq<char>)
    requires
        s.phase == WorkerPhase::Busy,
        next.len() > 0,
    ensures
        work_of(work_step(s, WorkerEvent::Finished(outcome))) == WorkerActionView::Receive,
        work_of(
            work_step(work_step(s, WorkerEvent::Finished(outcome)), WorkerEvent::Received(next)),
        ) == (WorkerActionView::Download { item: next }),
{
}

/// A worker stops at the first stop signal or when the queue is closed, and
/// at nothing else; once stopped it stays so.
pub proof fn lemma_worker_stops(s: WorkerState, e: WorkerEvent)
    ensures
        s.phase == WorkerPhase::Stopped ==> work_step(s, e) == s,
        s.phase != WorkerPhase::Stopped ==> (work_step(s, e).phase == WorkerPhase::Stopped <==> s.phase
            == WorkerPhase::Idle && (e is QueueClosed || (e matches WorkerEvent::Received(item)
            && item.len() == 0))),
{
}

/// One worker of the pool.
pub struct Worker {
    phase: WorkerPhase,
    current: ItemId,
}

impl View for Worker {
    type V = WorkerState;

    closed spec fn view(&self) -> WorkerState {
        WorkerState { phase: self.phase, current: self.current@ }
    }
}

impl Worker {
    /// A worker that waits for its first item.
    pub fn new() -> (w: Worker)
        ensures
            w@ == idle(),
    {
        Worker { phase: WorkerPhase::Idle, current: ItemId::sentinel() }
    }

    /// Where the worker stands.
    pub fn phase(&self) -> (phase: WorkerPhase)
        ensures
            phase == self@.phase,
    {
        self.phase
    }

    /// What is to be done next.
    pub fn action(&self) -> (action: WorkerAction)
        ensures
            action@ == work_of(self@),
    {
        match self.phase {
            WorkerPhase::Idle => WorkerAction::Receive,
            WorkerPhase::Busy => WorkerAction::Download { item: self.current.clone() },
            WorkerPhase::Stopped => WorkerAction::Exit,
        }
    }

    /// The queue delivered `item`.
    pub fn received(&mut self, item: ItemId)
        ensures
            final(self)@ == work_step(old(self)@, WorkerEvent::Received(item@)),
    {
        match self.phase {
            WorkerPhase::Idle => {
                if item.is_sentinel() {
                    self.phase = WorkerPhase::Stopped;
                    self.current = ItemId::sentinel();
                } else {
                    self.phase = WorkerPhase::Busy;
                    self.current = item;
                }
            },
            _ => {},
        }
    }

    /// The queue is closed and holds nothing more.
    pub fn queue_closed(&mut self)
        ensures
            final(self)@ == work_step(old(self)@, WorkerEvent::QueueClosed),
    {
        match self.phase {
            WorkerPhase::Idle => {
                self.phase = WorkerPhase::Stopped;
                self.current = ItemId::sentinel();
            },
            _ => {},
        }
    }

    /// The download of the current item ended with `outcome`.
    pub fn finished(&mut self, outcome: &Outcome)
        ensures
            final(self)@ == work_step(old(self)@, WorkerEvent::Finished(outcome@)),
    {
        match self.phase {
            WorkerPhase::Busy => {
                self.phase = WorkerPhase::Idle;
                self.current = ItemId::sentinel();
            },
            _ => {},
        }
    }
}

} // verus!
