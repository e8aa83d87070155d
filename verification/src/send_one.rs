//! A one-shot operation that delivers a single item and flushes.

use vstd::prelude::*;
use crate::poll::{Poll, StartSend};
use crate::sink::Sink;

verus! {

/// Delivers one item into an owned sink, then flushes, then hands the
/// sink back.
///
/// The item passes through two stages: while it is still pending, each
/// poll offers it once via `start_send`; once accepted, each poll drives
/// `poll_complete`. On completion the sink has accepted exactly the one
/// item more than when the operation started: the item is neither dropped
/// nor duplicated, however many polls backpressure forces. One-shot: an
/// error or completion consumes the operation.
pub struct SendOne<S: Sink> {
    sink: Option<S>,
    item: Option<S::SinkItem>,
    init: Ghost<Seq<S::SinkItem>>,
    it0: Ghost<S::SinkItem>,
}

impl<S: Sink> SendOne<S> {
    /// True once the operation has completed or failed.
    pub closed spec fn done(&self) -> bool {
        self.sink is None
    }

    /// True while the item has not yet been accepted by the sink.
    pub closed spec fn item_pending(&self) -> bool {
        self.item is Some
    }

    /// What the sink had accepted when the operation started.
    pub closed spec fn init_received(&self) -> Seq<S::SinkItem> {
        self.init@
    }

    /// The item being delivered.
    pub closed spec fn spec_item(&self) -> S::SinkItem {
        self.it0@
    }

    /// Well-formedness of the operation's state.
    pub closed spec fn wf(&self) -> bool {
        !self.done() ==> {
            &&& self.sink->0.inv()
            &&& self.item_pending() ==> {
                &&& !self.sink->0.closed()
                &&& self.sink->0.received() == self.init@
                &&& self.item->0 == self.it0@
            }
            &&& !self.item_pending() ==> self.sink->0.received() == self.init@.push(self.it0@)
        }
    }

    /// Start delivering `item` into `sink`.
    pub fn new(sink: S, item: S::SinkItem) -> (r: Self)
        requires
            sink.inv(),
            !sink.closed(),
        ensures
            r.wf(),
            !r.done(),
            r.item_pending(),
            r.init_received() == sink.received(),
            r.spec_item() == item,
    {
        SendOne {
            init: Ghost(sink.received()),
            it0: Ghost(item),
            sink: Some(sink),
            item: Some(item),
        }
    }

    /// Report whether the operation is already consumed.
    pub fn is_done(&self) -> (r: bool)
        ensures
            r == self.done(),
    {
        self.sink.is_none()
    }

    /// Report whether the item is still waiting to be accepted.
    pub fn is_item_pending(&self) -> (r: bool)
        ensures
            r == self.item_pending(),
    {
        self.item.is_some()
    }

    /// One attempt to make progress. On readiness the sink is returned
    /// having accepted exactly the one item, fully flushed; an error at
    /// either stage is terminal.
    pub fn poll(&mut self) -> (r: Poll<Result<S, S::SinkError>>)
        requires
            old(self).wf(),
            !old(self).done(),
        ensures
            final(self).wf(),
            match r {
                Poll::Ready(res) => final(self).done() && match res {
                    Ok(s) => s.inv() && s.flushed()
                        && s.received() == old(self).init_received().push(old(self).spec_item()),
                    Err(_) => true,
                },
                Poll::Pending => !final(self).done()
                    && final(self).init_received() == old(self).init_received()
                    && final(self).spec_item() == old(self).spec_item()
                    && (old(self).item_pending() || !final(self).item_pending()),
            },
    {
        let mut s = self.sink.take().unwrap();
        if self.item.is_some() {
            let it = self.item.take().unwrap();
            match s.start_send(it) {
                Ok(StartSend::Accepted) => {},
                Ok(StartSend::Rejected(it2)) => {
                    self.item = Some(it2);
                    self.sink = Some(s);
                    return Poll::Pending;
                },
                Err(e) => {
                    return Poll::Ready(Err(e));
                },
            }
        }
        match s.poll_complete() {
            Poll::Ready(res) => match res {
                Ok(()) => Poll::Ready(Ok(s)),
                Err(e) => Poll::Ready(Err(e)),
            },
            Poll::Pending => {
                self.sink = Some(s);
                Poll::Pending
            },
        }
    }
}

} // verus!
