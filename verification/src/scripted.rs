//! Deterministic sink and stream state machines.
//!
//! `ScriptedSink` answers each `start_send` according to a preset script of
//! responses and pretends to need a preset number of polls before it counts
//! as flushed; `SeqStream` yields a fixed sequence of items, optionally
//! stalling a preset number of times first. They are the ground instances
//! of the two capabilities: every adapter in this crate can wrap them, and
//! they make backpressure, faults and suspension reproducible.

use vstd::prelude::*;
use crate::poll::{Poll, StartSend};
use crate::sink::Sink;
use crate::stream::Stream;

verus! {

/// The error domain of the scripted sink: a coarse fault classification.
#[derive(Clone, Copy, PartialEq, Eq, Structural, Debug)]
pub enum FaultKind {
    Io,
    App,
}

/// One scripted answer to a `start_send` call.
#[derive(Clone, Copy, PartialEq, Eq, Structural, Debug)]
pub enum SinkStep {
    Accept,
    Reject,
    Fail(FaultKind),
}

/// A sink that records every accepted item and answers `start_send` calls
/// from a preset script (accepting once the script runs out), and that
/// reports `Pending` from `poll_complete` and `close` a preset number of
/// times before reporting readiness.
pub struct ScriptedSink<T> {
    items: Vec<T>,
    script: Vec<SinkStep>,
    cursor: usize,
    flush_delays: usize,
    terminated: bool,
}

impl<T> ScriptedSink<T> {
    /// A sink that answers `start_send` from `script` and needs
    /// `flush_delays` polls before reporting itself flushed.
    pub fn new(script: Vec<SinkStep>, flush_delays: usize) -> (r: Self)
        ensures
            r.inv(),
            r.received() == Seq::<T>::empty(),
            !r.closed(),
            r.flushed() == (flush_delays == 0),
    {
        ScriptedSink { items: Vec::new(), script, cursor: 0, flush_delays, terminated: false }
    }

    /// A sink that accepts everything immediately and is always flushed.
    pub fn accepting() -> (r: Self)
        ensures
            r.inv(),
            r.received() == Seq::<T>::empty(),
            !r.closed(),
            r.flushed(),
    {
        ScriptedSink { items: Vec::new(), script: Vec::new(), cursor: 0, flush_delays: 0, terminated: false }
    }

    /// The items accepted so far, oldest first.
    pub fn items(&self) -> (r: &Vec<T>)
        ensures
            r@ == self.received(),
    {
        &self.items
    }

    /// Consume the sink, handing out the accepted items.
    pub fn into_items(self) -> (r: Vec<T>)
        ensures
            r@ == self.received(),
    {
        self.items
    }
}

impl<T> Sink for ScriptedSink<T> {
    type SinkItem = T;

    type SinkError = FaultKind;

    closed spec fn received(&self) -> Seq<T> {
        self.items@
    }

    closed spec fn flushed(&self) -> bool {
        self.flush_delays == 0
    }

    closed spec fn closed(&self) -> bool {
        self.terminated
    }

    closed spec fn inv(&self) -> bool {
        true
    }

    fn start_send(&mut self, item: T) -> (r: Result<StartSend<T>, FaultKind>) {
        let step: SinkStep = if self.cursor < self.script.len() {
            let s = self.script[self.cursor];
            self.cursor = self.cursor + 1;
            s
        } else {
            SinkStep::Accept
        };
        match step {
            SinkStep::Accept => {
                self.items.push(item);
                Ok(StartSend::Accepted)
            },
            SinkStep::Reject => Ok(StartSend::Rejected(item)),
            SinkStep::Fail(k) => Err(k),
        }
    }

    fn poll_complete(&mut self) -> (r: Poll<Result<(), FaultKind>>) {
        if self.flush_delays > 0 {
            self.flush_delays = self.flush_delays - 1;
            Poll::Pending
        } else {
            Poll::Ready(Ok(()))
        }
    }

    fn close(&mut self) -> (r: Poll<Result<(), FaultKind>>) {
        if self.flush_delays > 0 {
            self.flush_delays = self.flush_delays - 1;
            Poll::Pending
        } else {
            self.terminated = true;
            Poll::Ready(Ok(()))
        }
    }
}

/// A stream that stalls a preset number of times, then yields a fixed
/// sequence of items in order, then signals exhaustion forever.
pub struct SeqStream<T> {
    items: Vec<T>,
    cursor: usize,
    stalls: usize,
    finished: bool,
}

impl<T: Copy> SeqStream<T> {
    /// A stream that yields `items` in order without stalling.
    pub fn new(items: Vec<T>) -> (r: Self)
        ensures
            r.inv(),
            r.future_items() == items@,
            !r.done(),
    {
        let r = SeqStream { items, cursor: 0, stalls: 0, finished: false };
        proof {
            assert(r.future_items() =~= r.items@);
        }
        r
    }

    /// A stream that reports `Pending` `stalls` times before yielding its
    /// first item.
    pub fn with_stalls(items: Vec<T>, stalls: usize) -> (r: Self)
        ensures
            r.inv(),
            r.future_items() == items@,
            !r.done(),
    {
        let r = SeqStream { items, cursor: 0, stalls, finished: false };
        proof {
            assert(r.future_items() =~= r.items@);
        }
        r
    }
}

impl<T: Copy> Stream for SeqStream<T> {
    type Item = T;

    closed spec fn future_items(&self) -> Seq<T> {
        self.items@.skip(self.cursor as int)
    }

    closed spec fn done(&self) -> bool {
        self.finished
    }

    closed spec fn inv(&self) -> bool {
        self.cursor <= self.items@.len() && (self.finished ==> self.cursor == self.items@.len())
    }

    fn poll_next(&mut self) -> (r: Poll<Option<T>>) {
        if self.stalls > 0 && !self.finished {
            self.stalls = self.stalls - 1;
            return Poll::Pending;
        }
        if self.cursor < self.items.len() {
            let x = self.items[self.cursor];
            self.cursor = self.cursor + 1;
            proof {
                assert(x == old(self).future_items()[0]);
                assert(self.future_items() =~= old(self).future_items().skip(1));
            }
            Poll::Ready(Some(x))
        } else {
            self.finished = true;
            proof {
                assert(self.future_items().len() == 0);
            }
            Poll::Ready(None)
        }
    }

    fn is_terminated(&self) -> (r: bool) {
        self.finished
    }
}

} // verus!
