//! Decision core of an incremental mirror for a paginated remote image feed.
//!
//! The crate holds the rules of the mirror and none of its input or output:
//! identifiers and their normalisation, the pagination cursor, the
//! deduplicating collector, the dispatcher and worker state machines, what
//! a bounded work queue means for the dispatcher, the conditional-fetch
//! decisions of the downloader and the outcome counters.
//! A caller performs the requests, the queue operations and the file writes
//! that the state machines ask for and reports back what happened.

pub mod clock;
pub mod collector;
pub mod dispatcher;
pub mod download;
pub mod item_id;
pub mod listing;
pub mod queue;
pub mod remote;
pub mod report;
pub mod text;
pub mod worker;
