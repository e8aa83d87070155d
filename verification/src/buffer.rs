//! A bounded FIFO staging queue in front of a sink.

use vstd::prelude::*;
use crate::poll::{Poll, StartSend};
use crate::sink::Sink;

verus! {

/// Adds a FIFO queue bounded at `capacity` in front of an inner sink.
///
/// Items enter the queue on `start_send` and leave it strictly in arrival
/// order as the inner sink makes room; `poll_complete` drains the queue
/// before delegating to the inner sink's own completion. A capacity of
/// zero degenerates to forwarding every item directly.
///
/// If the inner sink ever returns an error while holding one of the queued
/// items, that item is lost with the error; the adapter then wedges:
/// it rejects every later item and never again reports readiness.
pub struct Buffer<S: Sink> {
    sink: S,
    buf: Vec<S::SinkItem>,
    cap: usize,
    dead: bool,
    base: Ghost<Seq<S::SinkItem>>,
    acc: Ghost<Seq<S::SinkItem>>,
}

impl<S: Sink> Buffer<S> {
    /// The inner sink.
    pub closed spec fn spec_inner(&self) -> S {
        self.sink
    }

    /// What the inner sink had already accepted when this adapter was
    /// created.
    pub closed spec fn base(&self) -> Seq<S::SinkItem> {
        self.base@
    }

    /// The bound on the staging queue.
    pub closed spec fn capacity(&self) -> usize {
        self.cap
    }

    /// How many accepted items are still staged in the queue.
    pub closed spec fn queued(&self) -> nat {
        self.buf@.len()
    }

    /// True once an inner error has wedged the adapter.
    pub closed spec fn failed(&self) -> bool {
        self.dead
    }

    /// Wrap `sink`, staging up to `amt` items in front of it.
    pub fn new(sink: S, amt: usize) -> (r: Self)
        requires
            sink.inv(),
        ensures
            r.inv(),
            r.received() == Seq::<S::SinkItem>::empty(),
            r.capacity() == amt,
            r.queued() == 0,
            !r.failed(),
            r.closed() == sink.closed(),
            r.flushed() == sink.flushed(),
            r.spec_inner() == sink,
            r.base() == sink.received(),
    {
        let r = Buffer {
            base: Ghost(sink.received()),
            sink,
            buf: Vec::new(),
            cap: amt,
            dead: false,
            acc: Ghost(Seq::empty()),
        };
        proof {
            assert(r.sink.received() + r.buf@ =~= r.base@ + r.acc@);
        }
        r
    }

    /// A read-only view of the inner sink.
    pub fn get_ref(&self) -> (r: &S)
        ensures
            *r == self.spec_inner(),
    {
        &self.sink
    }

    /// Consume the adapter, handing back the inner sink.
    pub fn into_inner(self) -> (r: S)
        ensures
            r == self.spec_inner(),
    {
        self.sink
    }

    /// Drain the queue into the inner sink, oldest first, then drive the
    /// inner sink's own completion. Readiness is reported only once the
    /// queue is empty and the inner sink is flushed; a wedged adapter
    /// stays suspended and touches nothing.
    pub fn drive(&mut self) -> (r: Poll<Result<(), S::SinkError>>)
        requires
            old(self).inv(),
        ensures
            final(self).inv(),
            final(self).received() == old(self).received(),
            final(self).closed() == old(self).closed(),
            final(self).capacity() == old(self).capacity(),
            final(self).base() == old(self).base(),
            final(self).queued() <= final(self).capacity(),
            old(self).failed() ==> r is Pending
                && final(self).spec_inner() == old(self).spec_inner()
                && final(self).queued() == old(self).queued(),
            !(r matches Poll::Ready(Err(_))) ==> final(self).failed() == old(self).failed(),
            (r matches Poll::Ready(Err(_))) ==> final(self).failed(),
            match r {
                Poll::Ready(res) => res is Ok ==> final(self).flushed() && final(self).queued()
                    == 0 && !final(self).failed() && final(self).spec_inner().flushed(),
                Poll::Pending => true,
            },
    {
        if self.dead {
            return Poll::Pending;
        }
        while self.buf.len() > 0
            invariant
                self.inv(),
                !self.dead,
                !old(self).failed(),
                self.received() == old(self).received(),
                self.closed() == old(self).closed(),
                self.base@ == old(self).base@,
                self.cap == old(self).cap,
            decreases self.buf@.len(),
        {
            let ghost pre = *self;
            let head = self.buf.remove(0);
            match self.sink.start_send(head) {
                Ok(StartSend::Accepted) => {
                    proof {
                        assert(pre.sink.received().push(head) + pre.buf@.remove(0)
                            =~= pre.sink.received() + pre.buf@);
                        assert(self.sink.received() + self.buf@ =~= self.base@ + self.acc@);
                    }
                },
                Ok(StartSend::Rejected(h)) => {
                    self.buf.insert(0, h);
                    proof {
                        assert(self.sink.received() + self.buf@ =~= self.base@ + self.acc@);
                    }
                    return Poll::Pending;
                },
                Err(e) => {
                    self.dead = true;
                    return Poll::Ready(Err(e));
                },
            }
        }
        match self.sink.poll_complete() {
            Poll::Ready(res) => match res {
                Ok(()) => Poll::Ready(Ok(())),
                Err(e) => {
                    self.dead = true;
                    Poll::Ready(Err(e))
                },
            },
            Poll::Pending => Poll::Pending,
        }
    }

    /// Drain the queue, flush the inner sink, then close it. Readiness
    /// means everything accepted was delivered and the inner sink is
    /// closed; a wedged adapter stays suspended.
    pub fn shutdown(&mut self) -> (r: Poll<Result<(), S::SinkError>>)
        requires
            old(self).inv(),
        ensures
            final(self).inv(),
            final(self).received() == old(self).received(),
            old(self).closed() ==> final(self).closed(),
            final(self).capacity() == old(self).capacity(),
            final(self).base() == old(self).base(),
            final(self).queued() <= final(self).capacity(),
            old(self).failed() ==> r is Pending
                && final(self).spec_inner() == old(self).spec_inner(),
            !(r matches Poll::Ready(Err(_))) ==> final(self).failed() == old(self).failed(),
            match r {
                Poll::Ready(res) => res is Ok ==> final(self).flushed() && final(self).closed()
                    && final(self).queued() == 0 && !final(self).failed()
                    && final(self).spec_inner().flushed()
                    && final(self).spec_inner().closed(),
                Poll::Pending => true,
            },
    {
        match self.drive() {
            Poll::Ready(res) => match res {
                Ok(()) => match self.sink.close() {
                    Poll::Ready(res2) => Poll::Ready(res2),
                    Poll::Pending => Poll::Pending,
                },
                Err(e) => Poll::Ready(Err(e)),
            },
            Poll::Pending => Poll::Pending,
        }
    }

    /// Offer one item to the buffered sink.
    ///
    /// While fewer than `capacity` items are staged and no inner error has
    /// occurred, the item is always accepted: no backpressure is triggered
    /// below capacity. At capacity, one `start_send` on the inner sink is
    /// attempted for the oldest staged item first; only if the inner sink
    /// refuses to make room is the new item handed back.
    pub fn offer(&mut self, item: S::SinkItem) -> (r: Result<StartSend<S::SinkItem>, S::SinkError>)
        requires
            old(self).inv(),
            !old(self).closed(),
        ensures
            final(self).inv(),
            final(self).closed() == old(self).closed(),
            final(self).capacity() == old(self).capacity(),
            final(self).base() == old(self).base(),
            match r {
                Ok(StartSend::Accepted) => final(self).received() == old(self).received().push(item),
                Ok(StartSend::Rejected(it)) => it == item && final(self).received() == old(self).received(),
                Err(_) => final(self).received() == old(self).received(),
            },
            final(self).queued() <= final(self).capacity(),
            !(r matches Err(_)) ==> final(self).failed() == old(self).failed(),
            old(self).failed() ==> (r matches Ok(StartSend::Rejected(_)))
                && final(self).spec_inner() == old(self).spec_inner() && final(self).queued()
                == old(self).queued(),
            (r matches Ok(StartSend::Rejected(_))) ==> final(self).queued() == old(self).queued()
                && final(self).spec_inner().received() == old(self).spec_inner().received(),
            !old(self).failed() && old(self).queued() < old(self).capacity() ==> {
                &&& r matches Ok(StartSend::Accepted)
                &&& !final(self).failed()
                &&& final(self).queued() == old(self).queued() + 1
                &&& final(self).spec_inner() == old(self).spec_inner()
            },
            !old(self).failed() && old(self).capacity() == 0 && (r matches Ok(
                StartSend::Accepted,
            )) ==> final(self).spec_inner().received() == old(self).spec_inner().received().push(
                item,
            ) && final(self).queued() == 0,
            !old(self).failed() && old(self).queued() == old(self).capacity() && old(
                self,
            ).capacity() > 0 && (r matches Ok(StartSend::Accepted)) ==> {
                &&& final(self).queued() == old(self).queued()
                &&& final(self).spec_inner().received() == old(self).spec_inner().received().push(
                    old(self).received()[old(self).received().len() - old(self).queued()],
                )
            },
    {
        if self.dead {
            return Ok(StartSend::Rejected(item));
        }
        if self.cap == 0 {
            let r = self.sink.start_send(item);
            match r {
                Ok(StartSend::Accepted) => {
                    proof {
                        self.acc@ = self.acc@.push(item);
                        assert(old(self).buf@ =~= Seq::<S::SinkItem>::empty());
                        assert(old(self).sink.received() + old(self).buf@
                            =~= old(self).sink.received());
                        assert(self.sink.received() =~= (self.base@ + old(self).acc@).push(item));
                        assert((self.base@ + old(self).acc@).push(item)
                            =~= self.base@ + self.acc@);
                        assert(self.sink.received() + self.buf@ =~= self.sink.received());
                        assert(self.sink.received() + self.buf@ =~= self.base@ + self.acc@);
                    }
                    Ok(StartSend::Accepted)
                },
                Ok(StartSend::Rejected(it)) => Ok(StartSend::Rejected(it)),
                Err(e) => Err(e),
            }
        } else if self.buf.len() < self.cap {
            self.buf.push(item);
            proof {
                self.acc@ = self.acc@.push(item);
                assert(self.sink.received() + self.buf@
                    =~= (self.sink.received() + old(self).buf@).push(item));
                assert(self.base@ + self.acc@
                    =~= (self.base@ + old(self).acc@).push(item));
                assert(self.sink.received() + self.buf@ =~= self.base@ + self.acc@);
            }
            Ok(StartSend::Accepted)
        } else {
            let head = self.buf.remove(0);
            match self.sink.start_send(head) {
                Ok(StartSend::Accepted) => {
                    self.buf.push(item);
                    proof {
                        let n = old(self).sink.received().len() as int;
                        assert((old(self).sink.received() + old(self).buf@).len()
                            == (old(self).base@ + old(self).acc@).len());
                        assert(n == old(self).base@.len() + old(self).acc@.len()
                            - old(self).buf@.len());
                        assert((old(self).sink.received() + old(self).buf@)[n]
                            == old(self).buf@[0]);
                        assert((old(self).base@ + old(self).acc@)[n]
                            == old(self).acc@[n - old(self).base@.len()]);
                        assert(head == old(self).acc@[old(self).acc@.len()
                            - old(self).buf@.len()]);
                        self.acc@ = self.acc@.push(item);
                        assert(old(self).sink.received().push(head) + old(self).buf@.remove(0)
                            =~= old(self).sink.received() + old(self).buf@);
                        assert(self.sink.received() + self.buf@
                            =~= (old(self).sink.received().push(head)
                                + old(self).buf@.remove(0)).push(item));
                        assert(self.base@ + self.acc@
                            =~= (self.base@ + old(self).acc@).push(item));
                        assert(self.sink.received() + self.buf@ =~= self.base@ + self.acc@);
                    }
                    Ok(StartSend::Accepted)
                },
                Ok(StartSend::Rejected(h)) => {
                    self.buf.insert(0, h);
                    proof {
                        assert(self.buf@ =~= old(self).buf@);
                    }
                    Ok(StartSend::Rejected(item))
                },
                Err(e) => {
                    self.dead = true;
                    Err(e)
                },
            }
        }
    }
}

/// The queue delivers to the inner sink in first-in first-out order: at
/// every point, what the inner sink has accepted since this adapter was
/// created is exactly the oldest part of what the adapter has accepted,
/// and the queue holds the rest, in order.
pub proof fn lemma_buffer_fifo<S: Sink>(b: &Buffer<S>)
    requires
        b.inv(),
        !b.failed(),
    ensures
        b.queued() <= b.received().len(),
        b.spec_inner().received() =~= b.base()
            + b.received().take(b.received().len() - b.queued()),
{
    let whole = b.base@ + b.acc@;
    let n = b.sink.received().len() as int;
    assert((b.sink.received() + b.buf@).len() == (b.base@ + b.acc@).len());
    assert(n == b.base@.len() + b.acc@.len() - b.buf@.len());
    let d = b.acc@.len() - b.buf@.len();
    assert forall|i: int| 0 <= i < n implies b.sink.received()[i] == whole[i] by {
        assert((b.sink.received() + b.buf@)[i] == b.sink.received()[i]);
    }
    assert forall|i: int| 0 <= i < n implies
        b.sink.received()[i] == (b.base@ + b.acc@.take(d))[i] by {
        assert(b.sink.received()[i] == whole[i]);
    }
    assert(b.sink.received() =~= b.base@ + b.acc@.take(d));
    assert(b.acc@.take(d) == b.received().take(b.received().len() - b.queued()));
}

impl<S: Sink> Sink for Buffer<S> {
    type SinkItem = S::SinkItem;

    type SinkError = S::SinkError;

    closed spec fn received(&self) -> Seq<S::SinkItem> {
        self.acc@
    }

    closed spec fn flushed(&self) -> bool {
        !self.dead && self.buf@.len() == 0 && self.sink.flushed()
    }

    closed spec fn closed(&self) -> bool {
        self.sink.closed()
    }

    closed spec fn inv(&self) -> bool {
        &&& self.sink.inv()
        &&& self.buf@.len() <= self.cap
        &&& !self.dead ==> {
            &&& self.sink.received() + self.buf@ == self.base@ + self.acc@
            &&& self.buf@.len() <= self.acc@.len()
            &&& self.buf@.len() > 0 ==> !self.sink.closed()
        }
    }

    fn start_send(&mut self, item: S::SinkItem) -> (r: Result<StartSend<S::SinkItem>, S::SinkError>) {
        self.offer(item)
    }

    fn poll_complete(&mut self) -> (r: Poll<Result<(), S::SinkError>>) {
        self.drive()
    }

    fn close(&mut self) -> (r: Poll<Result<(), S::SinkError>>) {
        self.shutdown()
    }
}

} // verus!
