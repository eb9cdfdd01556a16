//! The dispatcher: pagination, hand-over of discovered items to the work
//! queue, and shutdown of the workers.
//!
//! The dispatcher is a state machine. It names the one thing to be done next
//! ([`Dispatcher::action`]); the caller does it and reports the result through
//! one of the event methods. [`step`] is the transition function that all
//! event methods implement.

use crate::collector::{fresh, lemma_fresh, Collector};
use crate::item_id::{canonical_all, ItemId};
use crate::listing::{cursor_of, ListingPage, PageOrder};
use vstd::prelude::*;

verus! {

/// What is handed to the queue of the identifiers that pagination discovers.
#[derive(Clone, Copy, Debug, PartialEq, Eq, Structural)]
pub enum DispatchMode {
    /// Every identifier of every page, as received.
    Stream,
    /// Every identifier once per run: what an earlier page of the run has
    /// brought already is left out.
    Collect,
}

/// Why a run was given up.
#[derive(Clone, Copy, Debug, PartialEq, Eq, Structural)]
pub enum Fault {
    /// A listing request failed or its response could not be read.
    Listing,
    /// The work queue did not take an item because it was closed.
    QueueClosed,
}

/// Where the dispatcher stands.
#[derive(Clone, Copy, Debug, PartialEq, Eq, Structural)]
pub enum Phase {
    /// The next page is to be requested.
    Searching,
    /// Identifiers of the current page wait to be handed to the queue.
    Sending,
    /// Pagination is over; the workers are being told to stop.
    Draining,
    /// Every worker was told to stop; their end is awaited.
    Joining,
    /// The run is complete.
    Finished,
    /// The run was given up.
    Failed(Fault),
}

/// The dispatcher's state as a mathematical value.
#[verifier::ext_equal]
pub struct DispatchState {
    /// Size of the worker pool.
    pub workers: nat,
    /// Order of the items within a page.
    pub order: PageOrder,
    /// What is handed to the queue.
    pub mode: DispatchMode,
    /// Where the dispatcher stands.
    pub phase: Phase,
    /// The cursor of the last page received; empty before the first page.
    pub cursor: Seq<char>,
    /// Identifiers of the current page that the queue has not taken yet.
    pub pending: Seq<Seq<char>>,
    /// In `Collect` mode, every identifier discovered so far.
    pub seen: Seq<Seq<char>>,
    /// Stop signals handed to the queue so far.
    pub stops: nat,
}

/// What can happen to a dispatcher.
pub enum DispatchEvent {
    /// The listing endpoint answered with these entries.
    Page(Seq<Seq<char>>),
    /// The listing request failed.
    ListingFailed,
    /// The queue took the item offered.
    Sent,
    /// The queue was closed and did not take the item offered.
    QueueClosed,
    /// All workers have ended.
    Joined,
}

/// What the dispatcher asks its caller to do.
pub enum Action {
    /// Request the page of items older than `cursor`; the empty cursor asks
    /// for the first page.
    List { cursor: ItemId },
    /// Hand `item` to the work queue, waiting until the queue has room. The
    /// empty item is the stop signal for one worker, also where it is an
    /// entry of a page: such an entry is handed over like any other.
    Send { item: ItemId },
    /// Wait until every worker has ended.
    Join,
    /// Nothing is left to do.
    Done,
    /// Give the run up.
    Abort { fault: Fault },
}

/// An [`Action`] as a mathematical value.
pub enum ActionView {
    List { cursor: Seq<char> },
    Send { item: Seq<char> },
    Join,
    Done,
    Abort { fault: Fault },
}

impl View for Action {
    type V = ActionView;

    open spec fn view(&self) -> ActionView {
        match self {
            Action::List { cursor } => ActionView::List { cursor: cursor@ },
            Action::Send { item } => ActionView::Send { item: item@ },
            Action::Join => ActionView::Join,
            Action::Done => ActionView::Done,
            Action::Abort { fault } => ActionView::Abort { fault: *fault },
        }
    }
}

/// The state of a dispatcher that has done nothing yet.
pub open spec fn initial(workers: nat, order: PageOrder, mode: DispatchMode) -> DispatchState {
    DispatchState {
        workers,
        order,
        mode,
        phase: Phase::Searching,
        cursor: Seq::<char>::empty(),
        pending: Seq::<Seq<char>>::empty(),
        seen: Seq::<Seq<char>>::empty(),
        stops: 0,
    }
}

/// The phase that follows from what is left to do: hand over what is
/// pending; else ask for the next page while the cursor is not empty; else
/// stop the workers one by one; else await them.
pub open spec fn settle(s: DispatchState) -> DispatchState {
    if s.pending.len() > 0 {
        DispatchState { phase: Phase::Sending, ..s }
    } else if s.cursor.len() > 0 {
        DispatchState { phase: Phase::Searching, ..s }
    } else if s.stops < s.workers {
        DispatchState { phase: Phase::Draining, ..s }
    } else {
        DispatchState { phase: Phase::Joining, ..s }
    }
}

/// The identifiers that a page with the entries `raw` puts up for the queue.
pub open spec fn batch_of(s: DispatchState, raw: Seq<Seq<char>>) -> Seq<Seq<char>> {
    match s.mode {
        DispatchMode::Stream => canonical_all(raw),
        DispatchMode::Collect => fresh(s.seen, canonical_all(raw)),
    }
}

/// The state after a page with the entries `raw` has arrived.
pub open spec fn take_page(s: DispatchState, raw: Seq<Seq<char>>) -> DispatchState {
    settle(
        DispatchState {
            cursor: cursor_of(canonical_all(raw), s.order),
            pending: batch_of(s, raw),
            seen: match s.mode {
                DispatchMode::Stream => s.seen,
                DispatchMode::Collect => s.seen + batch_of(s, raw),
            },
            ..s
        },
    )
}

/// The transition function. An event that does not answer the action that
/// the state asks for leaves the state as it is.
pub open spec fn step(s: DispatchState, e: DispatchEvent) -> DispatchState {
    match (s.phase, e) {
        (Phase::Searching, DispatchEvent::Page(raw)) => take_page(s, raw),
        (Phase::Searching, DispatchEvent::ListingFailed) => DispatchState {
            phase: Phase::Failed(Fault::Listing),
            ..s
        },
        (Phase::Sending, DispatchEvent::Sent) => settle(
            DispatchState { pending: s.pending.drop_first(), ..s },
        ),
        (Phase::Sending, DispatchEvent::QueueClosed) => DispatchState {
            phase: Phase::Failed(Fault::QueueClosed),
            ..s
        },
        (Phase::Draining, DispatchEvent::Sent) => settle(DispatchState { stops: s.stops + 1, ..s }),
        (Phase::Draining, DispatchEvent::QueueClosed) => settle(
            DispatchState { stops: s.stops + 1, ..s },
        ),
        (Phase::Joining, DispatchEvent::Joined) => DispatchState { phase: Phase::Finished, ..s },
        _ => s,
    }
}

/// The action that a state asks for.
pub open spec fn action_of(s: DispatchState) -> ActionView {
    match s.phase {
        Phase::Searching => ActionView::List { cursor: s.cursor },
        Phase::Sending => ActionView::Send { item: s.pending.first() },
        Phase::Draining => ActionView::Send { item: Seq::<char>::empty() },
        Phase::Joining => ActionView::Join,
        Phase::Finished => ActionView::Done,
        Phase::Failed(fault) => ActionView::Abort { fault },
    }
}

/// What holds of every state that a dispatcher reaches.
pub open spec fn inv(s: DispatchState) -> bool {
    &&& s.stops <= s.workers
    &&& s.phase == Phase::Searching ==> s.pending.len() == 0 && s.stops == 0
    &&& s.phase == Phase::Sending ==> s.pending.len() > 0 && s.stops == 0
    &&& s.phase == Phase::Draining ==> s.pending.len() == 0 && s.cursor.len() == 0 && s.stops
        < s.workers
    &&& s.phase == Phase::Joining || s.phase == Phase::Finished ==> s.pending.len() == 0
        && s.cursor.len() == 0 && s.stops == s.workers
    &&& s.mode == DispatchMode::Stream ==> s.seen.len() == 0
    &&& s.mode == DispatchMode::Collect ==> s.seen.no_duplicates() && s.pending.no_duplicates()
        && forall|k: int| 0 <= k < s.pending.len() ==> s.seen.contains(#[trigger] s.pending[k])
}

/// The invariant holds at the start.
pub proof fn lemma_initial_inv(workers: nat, order: PageOrder, mode: DispatchMode)
    ensures
        inv(initial(workers, order, mode)),
{
}

/// Every transition keeps the invariant.
pub proof fn lemma_inv(s: DispatchState, e: DispatchEvent)
    ensures
        inv(s) ==> inv(step(s, e)),
{
    if inv(s) {
        match (s.phase, e) {
            (Phase::Searching, DispatchEvent::Page(raw)) => {
                let ids = canonical_all(raw);
                if s.mode == DispatchMode::Collect {
                    lemma_fresh(s.seen, ids);
                    let batch = fresh(s.seen, ids);
                    assert forall|k: int| 0 <= k < batch.len() implies (s.seen + batch).contains(
                        #[trigger] batch[k],
                    ) by {
                        assert((s.seen + batch)[s.seen.len() + k] == batch[k]);
                    }
                }
            },
            _ => {},
        }
    }
}

/// The state once the queue has taken everything that was pending.
pub open spec fn flushed(s: DispatchState) -> DispatchState
    decreases s.pending.len(),
{
    if s.phase == Phase::Sending && s.pending.len() > 0 {
        flushed(step(s, DispatchEvent::Sent))
    } else {
        s
    }
}

/// The state after the listing endpoint has served `pages` in order, the
/// queue taking every batch before the next page is asked for. A page that
/// comes after pagination has ended is never asked for and changes nothing.
pub open spec fn paginate(s: DispatchState, pages: Seq<Seq<Seq<char>>>) -> DispatchState
    decreases pages.len(),
{
    if pages.len() == 0 {
        s
    } else {
        flushed(step(paginate(s, pages.drop_last()), DispatchEvent::Page(pages.last())))
    }
}

/// The number of listing requests that `paginate` makes on the way.
pub open spec fn requests_made(s: DispatchState, pages: Seq<Seq<Seq<char>>>) -> nat
    decreases pages.len(),
{
    if pages.len() == 0 {
        0
    } else if paginate(s, pages.drop_last()).phase == Phase::Searching {
        requests_made(s, pages.drop_last()) + 1
    } else {
        requests_made(s, pages.drop_last())
    }
}

/// The state after a sequence of events.
pub open spec fn run(s: DispatchState, events: Seq<DispatchEvent>) -> DispatchState
    decreases events.len(),
{
    if events.len() == 0 {
        s
    } else {
        step(run(s, events.drop_last()), events.last())
    }
}

/// The identifiers of images that the queue has taken over a sequence of
/// events, in the order in which it took them. Stop signals are not counted.
pub open spec fn handed_over(s: DispatchState, events: Seq<DispatchEvent>) -> Seq<Seq<char>>
    decreases events.len(),
{
    if events.len() == 0 {
        Seq::<Seq<char>>::empty()
    } else {
        let before = run(s, events.drop_last());
        if before.phase == Phase::Sending && events.last() is Sent {
            handed_over(s, events.drop_last()).push(before.pending.first())
        } else {
            handed_over(s, events.drop_last())
        }
    }
}

/// Once the queue has taken a batch, nothing is pending, and the phase is
/// the one that the cursor and the stop signals call for.
pub proof fn lemma_flushed(s: DispatchState)
    requires
        inv(s),
    ensures
        inv(flushed(s)),
        s.phase == Phase::Sending ==> flushed(s) == settle(
            DispatchState { pending: Seq::<Seq<char>>::empty(), ..s },
        ),
        s.phase != Phase::Sending ==> flushed(s) == s,
    decreases s.pending.len(),
{
    if s.phase == Phase::Sending && s.pending.len() > 0 {
        let t = step(s, DispatchEvent::Sent);
        lemma_inv(s, DispatchEvent::Sent);
        lemma_flushed(t);
        if t.phase == Phase::Sending {
            assert(DispatchState { pending: Seq::<Seq<char>>::empty(), ..t } =~= DispatchState {
                pending: Seq::<Seq<char>>::empty(),
                ..s
            });
        }
    }
}

/// Pagination ends with the first page whose cursor is empty: where the last
/// of `pages` is such a page, the dispatcher has left `Searching` for good
/// after at most `pages.len()` listing requests, and after exactly that many
/// where no earlier page had an empty cursor.
pub proof fn lemma_pagination_terminates(
    workers: nat,
    order: PageOrder,
    mode: DispatchMode,
    pages: Seq<Seq<Seq<char>>>,
)
    requires
        pages.len() > 0,
        cursor_of(canonical_all(pages.last()), order).len() == 0,
    ensures
        ({
            let end = paginate(initial(workers, order, mode), pages);
            &&& end.pending.len() == 0
            &&& end.cursor.len() == 0
            &&& action_of(end) == if workers > 0 {
                ActionView::Send { item: Seq::<char>::empty() }
            } else {
                ActionView::Join
            }
        }),
        requests_made(initial(workers, order, mode), pages) <= pages.len(),
        (forall|i: int|
            0 <= i < pages.len() - 1 ==> cursor_of(canonical_all(#[trigger] pages[i]), order).len()
                > 0) ==> requests_made(initial(workers, order, mode), pages) == pages.len(),
{
    lemma_paginate(initial(workers, order, mode), pages);
}

/// What `paginate` keeps true from a state in which nothing was handed over yet.
proof fn lemma_paginate(s: DispatchState, pages: Seq<Seq<Seq<char>>>)
    requires
        s == initial(s.workers, s.order, s.mode),
    ensures
        ({
            let end = paginate(s, pages);
            &&& inv(end)
            &&& end.workers == s.workers
            &&& end.order == s.order
            &&& end.stops == 0
            &&& end.pending.len() == 0
            &&& end.phase == Phase::Searching || end.phase == Phase::Draining || end.phase
                == Phase::Joining
            &&& pages.len() > 0 ==> (end.phase == Phase::Searching) == (end.cursor.len() > 0)
            &&& pages.len() > 0 && cursor_of(canonical_all(pages.last()), s.order).len() == 0
                ==> end.phase != Phase::Searching
            &&& (forall|i: int|
                0 <= i < pages.len() ==> cursor_of(canonical_all(#[trigger] pages[i]), s.order).len()
                    > 0) ==> end.phase == Phase::Searching
        }),
        requests_made(s, pages) <= pages.len(),
        paginate(s, pages).phase == Phase::Searching ==> requests_made(s, pages) == pages.len(),
        (forall|i: int|
            0 <= i < pages.len() - 1 ==> cursor_of(canonical_all(#[trigger] pages[i]), s.order).len()
                > 0) ==> requests_made(s, pages) == pages.len(),
    decreases pages.len(),
{
    if pages.len() == 0 {
        lemma_initial_inv(s.workers, s.order, s.mode);
    } else {
        let front = pages.drop_last();
        let before = paginate(s, front);
        lemma_paginate(s, front);
        let taken = step(before, DispatchEvent::Page(pages.last()));
        lemma_inv(before, DispatchEvent::Page(pages.last()));
        lemma_flushed(taken);
    }
}

/// In `Collect` mode no identifier is handed to the queue twice in one run,
/// whatever pages the listing endpoint serves and however they overlap.
pub proof fn lemma_collect_hands_over_once(
    workers: nat,
    order: PageOrder,
    events: Seq<DispatchEvent>,
)
    ensures
        handed_over(initial(workers, order, DispatchMode::Collect), events).no_duplicates(),
{
    lemma_handed_over(initial(workers, order, DispatchMode::Collect), events);
    let end = run(initial(workers, order, DispatchMode::Collect), events);
    let hist = handed_over(initial(workers, order, DispatchMode::Collect), events);
    assert forall|i: int, j: int| 0 <= i < hist.len() && 0 <= j < hist.len() && i != j implies hist[i]
        != hist[j] by {
        assert((hist + end.pending)[i] == hist[i]);
        assert((hist + end.pending)[j] == hist[j]);
    }
}

/// What a run in `Collect` mode keeps true of the identifiers handed over.
proof fn lemma_handed_over(s: DispatchState, events: Seq<DispatchEvent>)
    requires
        s == initial(s.workers, s.order, DispatchMode::Collect),
    ensures
        ({
            let end = run(s, events);
            let hist = handed_over(s, events);
            &&& inv(end)
            &&& end.mode == DispatchMode::Collect
            &&& (hist + end.pending).no_duplicates()
            &&& forall|k: int| 0 <= k < hist.len() ==> end.seen.contains(#[trigger] hist[k])
        }),
    decreases events.len(),
{
    if events.len() == 0 {
        lemma_initial_inv(s.workers, s.order, s.mode);
    } else {
        let before = run(s, events.drop_last());
        let earlier = handed_over(s, events.drop_last());
        let e = events.last();
        let end = run(s, events);
        let hist = handed_over(s, events);
        lemma_handed_over(s, events.drop_last());
        lemma_inv(before, e);
        match (before.phase, e) {
            (Phase::Searching, DispatchEvent::Page(raw)) => {
                let batch = fresh(before.seen, canonical_all(raw));
                lemma_fresh(before.seen, canonical_all(raw));
                assert forall|i: int, j: int|
                    0 <= i < (hist + batch).len() && 0 <= j < (hist + batch).len() && i
                        != j implies (hist + batch)[i] != (hist + batch)[j] by {
                    if i < hist.len() && j >= hist.len() {
                        assert(batch.contains(batch[j - hist.len()]));
                    }
                    if j < hist.len() && i >= hist.len() {
                        assert(batch.contains(batch[i - hist.len()]));
                    }
                }
                assert forall|k: int| 0 <= k < hist.len() implies end.seen.contains(
                    #[trigger] hist[k],
                ) by {
                    let j = choose|j: int| 0 <= j < before.seen.len() && before.seen[j] == hist[k];
                    assert(end.seen[j] == hist[k]);
                }
            },
            (Phase::Sending, DispatchEvent::Sent) => {
                assert(hist + end.pending =~= earlier + before.pending);
            },
            _ => {},
        }
    }
}

/// The events of a page with the entries `raw` of which the queue then takes
/// `taken` identifiers.
pub open spec fn page_then_taken(raw: Seq<Seq<char>>, taken: nat) -> Seq<DispatchEvent> {
    seq![DispatchEvent::Page(raw)] + Seq::new(taken, |i: int| DispatchEvent::Sent)
}

/// Every identifier that a page puts up is handed to the queue once, in the
/// order received, before anything else is asked for: after a page and as
/// many takes as its batch is long, exactly the batch has been handed over
/// and nothing is pending.
pub proof fn lemma_page_is_handed_over_in_order(s: DispatchState, raw: Seq<Seq<char>>)
    requires
        inv(s),
        s.phase == Phase::Searching,
    ensures
        handed_over(s, page_then_taken(raw, batch_of(s, raw).len())) == batch_of(s, raw),
        run(s, page_then_taken(raw, batch_of(s, raw).len())) == flushed(
            step(s, DispatchEvent::Page(raw)),
        ),
        run(s, page_then_taken(raw, batch_of(s, raw).len())).pending.len() == 0,
{
    lemma_page_partly_handed_over(s, raw, batch_of(s, raw).len());
    lemma_inv(s, DispatchEvent::Page(raw));
    lemma_flushed(step(s, DispatchEvent::Page(raw)));
}

/// The state and the identifiers handed over after a page and `k` takes.
proof fn lemma_page_partly_handed_over(s: DispatchState, raw: Seq<Seq<char>>, k: nat)
    requires
        inv(s),
        s.phase == Phase::Searching,
        k <= batch_of(s, raw).len(),
    ensures
        handed_over(s, page_then_taken(raw, k)) == batch_of(s, raw).take(k as int),
        run(s, page_then_taken(raw, k)) == settle(
            DispatchState {
                pending: batch_of(s, raw).skip(k as int),
                ..step(s, DispatchEvent::Page(raw))
            },
        ),
    decreases k,
{
    let events = page_then_taken(raw, k);
    if k == 0 {
        assert(run(s, events.drop_last()) == s);
        assert(handed_over(s, events.drop_last()) =~= Seq::<Seq<char>>::empty());
    } else {
        lemma_page_partly_handed_over(s, raw, (k - 1) as nat);
        assert(events.drop_last() =~= page_then_taken(raw, (k - 1) as nat));
    }
}

/// Workers are told to stop only when pagination is over and nothing is
/// pending, one stop signal at a time, and their end is awaited when as many
/// signals were handed over as there are workers.
pub proof fn lemma_one_stop_per_worker(s: DispatchState, e: DispatchEvent)
    requires
        inv(s),
    ensures
        step(s, e).stops == if s.phase == Phase::Draining && (e is Sent || e is QueueClosed) {
            s.stops + 1
        } else {
            s.stops
        },
        action_of(s) is Join || action_of(s) is Done ==> s.stops == s.workers,
        s.phase == Phase::Draining ==> s.pending.len() == 0 && s.cursor.len() == 0,
{
}

/// The dispatcher never holds more undelivered identifiers than the last
/// page brought, and asks for another page only when none is left: while the
/// queue takes nothing, nothing more is discovered.
pub proof fn lemma_backlog_bounded(s: DispatchState, e: DispatchEvent)
    requires
        inv(s),
    ensures
        action_of(s) is List ==> s.pending.len() == 0,
        match e {
            DispatchEvent::Page(raw) => step(s, e).pending.len() <= if s.phase == Phase::Searching {
                raw.len()
            } else {
                s.pending.len()
            },
            _ => step(s, e).pending.len() <= s.pending.len(),
        },
{
    if let DispatchEvent::Page(raw) = e {
        if s.phase == Phase::Searching {
            lemma_fresh(s.seen, canonical_all(raw));
        }
    }
}

/// The exit code of a process that ends in `phase`: zero unless the run was
/// given up. Items that failed one by one do not change it.
pub open spec fn exit_code_of(phase: Phase) -> u8 {
    if phase is Failed {
        1
    } else {
        0
    }
}

/// The dispatcher of one run.
pub struct Dispatcher {
    workers: usize,
    order: PageOrder,
    mode: DispatchMode,
    phase: Phase,
    cursor: ItemId,
    batch: Vec<ItemId>,
    handed: usize,
    seen: Collector,
    stops: usize,
}

impl View for Dispatcher {
    type V = DispatchState;

    closed spec fn view(&self) -> DispatchState {
        DispatchState {
            workers: self.workers as nat,
            order: self.order,
            mode: self.mode,
            phase: self.phase,
            cursor: self.cursor@,
            pending: self.batch.deep_view().skip(self.handed as int),
            seen: self.seen@,
            stops: self.stops as nat,
        }
    }
}

impl Dispatcher {
    /// The dispatcher is in a state that it can reach.
    pub closed spec fn wf(&self) -> bool {
        &&& self.handed <= self.batch.len()
        &&& inv(self@)
    }

    /// A well-formed dispatcher satisfies the invariant of the state machine.
    pub proof fn lemma_wf(&self)
        requires
            self.wf(),
        ensures
            inv(self@),
    {
    }

    /// A dispatcher for a pool of `workers` workers, about to ask for the
    /// newest page.
    pub fn new(workers: usize, order: PageOrder, mode: DispatchMode) -> (d: Dispatcher)
        ensures
            d.wf(),
            d@ == initial(workers as nat, order, mode),
    {
        let d = Dispatcher {
            workers,
            order,
            mode,
            phase: Phase::Searching,
            cursor: ItemId::sentinel(),
            batch: Vec::new(),
            handed: 0,
            seen: Collector::new(),
            stops: 0,
        };
        proof {
            lemma_initial_inv(workers as nat, order, mode);
        }
        d
    }

    /// Where the dispatcher stands.
    pub fn phase(&self) -> (phase: Phase)
        ensures
            phase == self@.phase,
    {
        self.phase
    }

    /// The cursor of the last page received: its oldest identifier. Empty
    /// before the first page and after the last.
    pub fn cursor(&self) -> (cursor: ItemId)
        ensures
            cursor@ == self@.cursor,
    {
        self.cursor.clone()
    }

    /// The exit code of a process that ends now.
    pub fn exit_code(&self) -> (code: u8)
        ensures
            code == exit_code_of(self@.phase),
    {
        match self.phase {
            Phase::Failed(_) => 1,
            _ => 0,
        }
    }

    /// The number of identifiers of the current page that the queue has not
    /// taken yet.
    pub fn backlog(&self) -> (n: usize)
        requires
            self.wf(),
        ensures
            n == self@.pending.len(),
    {
        self.batch.len() - self.handed
    }

    /// The number of stop signals handed to the queue so far.
    pub fn stops_sent(&self) -> (n: usize)
        ensures
            n == self@.stops,
    {
        self.stops
    }

    /// In `Collect` mode, every identifier discovered so far, each once, in
    /// the order of discovery. Empty in `Stream` mode.
    pub fn collected(&self) -> (ids: Vec<ItemId>)
        ensures
            ids.deep_view() == self@.seen,
    {
        self.seen.items()
    }

    /// What is to be done next.
    pub fn action(&self) -> (action: Action)
        requires
            self.wf(),
        ensures
            action@ == action_of(self@),
    {
        match self.phase {
            Phase::Searching => Action::List { cursor: self.cursor.clone() },
            Phase::Sending => Action::Send { item: self.batch[self.handed].clone() },
            Phase::Draining => Action::Send { item: ItemId::sentinel() },
            Phase::Joining => Action::Join,
            Phase::Finished => Action::Done,
            Phase::Failed(fault) => Action::Abort { fault },
        }
    }

    fn settle(&mut self)
        requires
            old(self).handed <= old(self).batch.len(),
        ensures
            final(self)@ == settle(old(self)@),
            final(self).handed == old(self).handed,
            final(self).batch == old(self).batch,
    {
        if self.handed < self.batch.len() {
            self.phase = Phase::Sending;
        } else if !self.cursor.is_sentinel() {
            self.phase = Phase::Searching;
        } else if self.stops < self.workers {
            self.phase = Phase::Draining;
        } else {
            self.phase = Phase::Joining;
        }
    }

    /// The listing endpoint answered the request with the entries `raw`.
    pub fn page_received(&mut self, raw: &Vec<String>)
        requires
            old(self).wf(),
        ensures
            final(self).wf(),
            final(self)@ == step(old(self)@, DispatchEvent::Page(raw.deep_view())),
    {
        proof {
            lemma_inv(self@, DispatchEvent::Page(raw.deep_view()));
        }
        match self.phase {
            Phase::Searching => {
                let page = ListingPage::from_raw(raw);
                self.cursor = page.cursor(self.order);
                let ids = page.into_ids();
                match self.mode {
                    DispatchMode::Stream => {
                        self.batch = ids;
                    },
                    DispatchMode::Collect => {
                        self.batch = self.seen.extend(&ids);
                    },
                }
                self.handed = 0;
                self.settle();
            },
            _ => {},
        }
    }

    /// The listing request failed, or its response could not be read.
    pub fn listing_failed(&mut self)
        requires
            old(self).wf(),
        ensures
            final(self).wf(),
            final(self)@ == step(old(self)@, DispatchEvent::ListingFailed),
    {
        proof {
            lemma_inv(self@, DispatchEvent::ListingFailed);
        }
        match self.phase {
            Phase::Searching => {
                self.phase = Phase::Failed(Fault::Listing);
            },
            _ => {},
        }
    }

    /// The queue took the item that was offered.
    pub fn sent(&mut self)
        requires
            old(self).wf(),
        ensures
            final(self).wf(),
            final(self)@ == step(old(self)@, DispatchEvent::Sent),
    {
        proof {
            lemma_inv(self@, DispatchEvent::Sent);
        }
        match self.phase {
            Phase::Sending => {
                assert(self.batch.deep_view().skip(self.handed as int).drop_first()
                    =~= self.batch.deep_view().skip(self.handed + 1));
                self.handed = self.handed + 1;
                self.settle();
            },
            Phase::Draining => {
                self.stops = self.stops + 1;
                self.settle();
            },
            _ => {},
        }
    }

    /// The queue was closed and did not take the item that was offered.
    pub fn queue_closed(&mut self)
        requires
            old(self).wf(),
        ensures
            final(self).wf(),
            final(self)@ == step(old(self)@, DispatchEvent::QueueClosed),
    {
        proof {
            lemma_inv(self@, DispatchEvent::QueueClosed);
        }
        match self.phase {
            Phase::Sending => {
                self.phase = Phase::Failed(Fault::QueueClosed);
            },
            Phase::Draining => {
                self.stops = self.stops + 1;
                self.settle();
            },
            _ => {},
        }
    }

    /// Every worker has ended.
    pub fn joined(&mut self)
        requires
            old(self).wf(),
        ensures
            final(self).wf(),
            final(self)@ == step(old(self)@, DispatchEvent::Joined),
    {
        proof {
            lemma_inv(self@, DispatchEvent::Joined);
        }
        match self.phase {
            Phase::Joining => {
                self.phase = Phase::Finished;
            },
            _ => {},
        }
    }
}

} // verus!
