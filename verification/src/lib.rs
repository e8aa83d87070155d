//! A composable, push-based asynchronous consumer abstraction ("sink") and
//! the combinator layer built on top of it: buffering, fan-out replication,
//! transformation, error remapping, flushing, and stream draining, together
//! with a pull-based stream-collecting accumulator.
//!
//! Every component is an explicit state machine driven by non-blocking
//! `poll`-style calls: each call either makes progress or reports that it
//! must be retried later. Contracts are stated over the sequence of items a
//! sink has accepted and the sequence of items a stream has yet to yield.

pub mod poll;
pub mod sink;
pub mod stream;
pub mod scripted;
pub mod buffer;
pub mod fanout;
pub mod flush;
pub mod send_one;
pub mod send_all;
pub mod collect;
pub mod map_err;
pub mod from_err;
pub mod with_flat_map;
pub mod with;
