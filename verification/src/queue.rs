//! Backpressure: the dispatcher together with a bounded work queue.
//!
//! The queue itself is the caller's. This module states what follows for the
//! dispatcher from the one thing that is assumed of it: it is first in, first
//! out, and it takes an item exactly while it holds fewer items than its
//! capacity. Until it does, the dispatcher waits with the same item in hand.

use crate::dispatcher::{
    action_of, batch_of, initial, inv, lemma_initial_inv, lemma_inv, step, ActionView,
    DispatchEvent, DispatchMode, DispatchState,
};
use crate::listing::PageOrder;
use vstd::prelude::*;

verus! {

/// The dispatcher and the queue between it and the workers.
#[verifier::ext_equal]
pub struct Pipeline {
    /// The dispatcher.
    pub dispatcher: DispatchState,
    /// The number of items that the queue has room for.
    pub capacity: nat,
    /// The items handed to the queue and not yet taken by a worker, the
    /// oldest first. Stop signals are among them.
    pub queued: Seq<Seq<char>>,
}

/// What can happen to the pipeline.
pub enum PipelineEvent {
    /// The listing endpoint answered with these entries.
    Page(Seq<Seq<char>>),
    /// The listing request failed.
    ListingFailed,
    /// All workers have ended.
    Joined,
    /// The dispatcher offers the queue the item that it has in hand.
    Offer,
    /// A worker takes the oldest item from the queue.
    Take,
}

/// The pipeline of a run in which nothing has happened yet.
pub open spec fn start(workers: nat, order: PageOrder, mode: DispatchMode, capacity: nat) -> Pipeline {
    Pipeline {
        dispatcher: initial(workers, order, mode),
        capacity,
        queued: Seq::<Seq<char>>::empty(),
    }
}

/// The dispatcher offers its item. A queue with room takes it, and the
/// dispatcher goes on; a full queue takes nothing, and nothing changes: the
/// dispatcher is blocked.
pub open spec fn offer(p: Pipeline) -> Pipeline {
    match action_of(p.dispatcher) {
        ActionView::Send { item } => if p.queued.len() < p.capacity {
            Pipeline {
                dispatcher: step(p.dispatcher, DispatchEvent::Sent),
                queued: p.queued.push(item),
                ..p
            }
        } else {
            p
        },
        _ => p,
    }
}

/// A worker takes the oldest item, if there is one.
pub open spec fn take(p: Pipeline) -> Pipeline {
    if p.queued.len() > 0 {
        Pipeline { queued: p.queued.drop_first(), ..p }
    } else {
        p
    }
}

/// The transition function of the pipeline.
pub open spec fn pipeline_step(p: Pipeline, e: PipelineEvent) -> Pipeline {
    match e {
        PipelineEvent::Page(raw) => Pipeline {
            dispatcher: step(p.dispatcher, DispatchEvent::Page(raw)),
            ..p
        },
        PipelineEvent::ListingFailed => Pipeline {
            dispatcher: step(p.dispatcher, DispatchEvent::ListingFailed),
            ..p
        },
        PipelineEvent::Joined => Pipeline {
            dispatcher: step(p.dispatcher, DispatchEvent::Joined),
            ..p
        },
        PipelineEvent::Offer => offer(p),
        PipelineEvent::Take => take(p),
    }
}

/// The pipeline after a sequence of events.
pub open spec fn pipeline_run(p: Pipeline, events: Seq<PipelineEvent>) -> Pipeline
    decreases events.len(),
{
    if events.len() == 0 {
        p
    } else {
        pipeline_step(pipeline_run(p, events.drop_last()), events.last())
    }
}

/// The pipeline after the dispatcher has offered its item `n` times in a
/// row while no worker took anything.
pub open spec fn offers(p: Pipeline, n: nat) -> Pipeline
    decreases n,
{
    if n == 0 {
        p
    } else {
        offer(offers(p, (n - 1) as nat))
    }
}

/// At every moment of a run the items handed over and not yet taken are at
/// most as many as the queue has room for, whatever the listing endpoint
/// offers and whenever the workers take.
pub proof fn lemma_queue_within_capacity(
    workers: nat,
    order: PageOrder,
    mode: DispatchMode,
    capacity: nat,
    events: Seq<PipelineEvent>,
)
    ensures
        pipeline_run(start(workers, order, mode, capacity), events).queued.len() <= capacity,
        pipeline_run(start(workers, order, mode, capacity), events).capacity == capacity,
        inv(pipeline_run(start(workers, order, mode, capacity), events).dispatcher),
    decreases events.len(),
{
    if events.len() == 0 {
        lemma_initial_inv(workers, order, mode);
    } else {
        lemma_queue_within_capacity(workers, order, mode, capacity, events.drop_last());
        let before = pipeline_run(start(workers, order, mode, capacity), events.drop_last());
        match events.last() {
            PipelineEvent::Page(raw) => lemma_inv(before.dispatcher, DispatchEvent::Page(raw)),
            PipelineEvent::ListingFailed => lemma_inv(
                before.dispatcher,
                DispatchEvent::ListingFailed,
            ),
            PipelineEvent::Joined => lemma_inv(before.dispatcher, DispatchEvent::Joined),
            PipelineEvent::Offer => lemma_inv(before.dispatcher, DispatchEvent::Sent),
            PipelineEvent::Take => {},
        }
    }
}

/// On a full queue the dispatcher is blocked: its offer changes nothing,
/// however often it is made, and no page is asked for meanwhile. Once a
/// worker has taken an item, the next offer is taken, and the queue is full
/// again.
pub proof fn lemma_full_queue_blocks(p: Pipeline, n: nat)
    requires
        inv(p.dispatcher),
        action_of(p.dispatcher) is Send,
        p.queued.len() == p.capacity,
    ensures
        offers(p, n) == p,
        p.capacity > 0 ==> offer(take(p)).dispatcher == step(p.dispatcher, DispatchEvent::Sent)
            && offer(take(p)).queued.len() == p.capacity,
    decreases n,
{
    if n > 0 {
        lemma_full_queue_blocks(p, (n - 1) as nat);
    }
}

/// With the workers paused, a page that brings more identifiers than the
/// queue has room for fills the queue and no more: however often the
/// dispatcher offers, the queue holds the first `capacity` identifiers of
/// the batch, in order, and the dispatcher holds the rest, blocked on the
/// next of them.
pub proof fn lemma_paused_workers_fill_the_queue(
    workers: nat,
    order: PageOrder,
    mode: DispatchMode,
    capacity: nat,
    raw: Seq<Seq<char>>,
    n: nat,
)
    requires
        batch_of(initial(workers, order, mode), raw).len() > capacity,
        n >= capacity,
    ensures
        ({
            let batch = batch_of(initial(workers, order, mode), raw);
            let p = offers(
                pipeline_step(start(workers, order, mode, capacity), PipelineEvent::Page(raw)),
                n,
            );
            &&& p.queued == batch.take(capacity as int)
            &&& p.dispatcher.pending == batch.skip(capacity as int)
            &&& action_of(p.dispatcher) == (ActionView::Send { item: batch[capacity as int] })
            &&& offer(p) == p
        }),
{
    lemma_offers_after_page(workers, order, mode, capacity, raw, n);
}

/// The pipeline after a page and `n` offers, with the workers paused.
proof fn lemma_offers_after_page(
    workers: nat,
    order: PageOrder,
    mode: DispatchMode,
    capacity: nat,
    raw: Seq<Seq<char>>,
    n: nat,
)
    requires
        batch_of(initial(workers, order, mode), raw).len() > capacity,
    ensures
        ({
            let batch = batch_of(initial(workers, order, mode), raw);
            let taken = step(initial(workers, order, mode), DispatchEvent::Page(raw));
            let held = if n < capacity {
                n
            } else {
                capacity
            };
            offers(
                pipeline_step(start(workers, order, mode, capacity), PipelineEvent::Page(raw)),
                n,
            ) == (Pipeline {
                dispatcher: DispatchState { pending: batch.skip(held as int), ..taken },
                capacity,
                queued: batch.take(held as int),
            })
        }),
    decreases n,
{
    if n > 0 {
        lemma_offers_after_page(workers, order, mode, capacity, raw, (n - 1) as nat);
    }
}

} // verus!
