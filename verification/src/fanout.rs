//! Replication of one item sequence to two independent sinks.

use vstd::prelude::*;
use crate::poll::{Poll, StartSend};
use crate::sink::{opt_seq, Sink};

verus! {

/// Forwards every accepted item to two sinks, in the same relative order.
///
/// Each branch keeps a staging slot for the one item that branch has not
/// yet taken; a new item is accepted only once both slots are empty, so
/// both branches always hold equal-length, order-preserving copies of the
/// accepted sequence. An error from either branch is surfaced at once and
/// wedges the adapter: the staged copies are abandoned, later items are
/// rejected, and neither branch is offered anything further.
pub struct Fanout<A: Sink, B: Sink<SinkItem = A::SinkItem, SinkError = A::SinkError>> where
    A::SinkItem: Copy,
{
    a: A,
    b: B,
    pend_a: Option<A::SinkItem>,
    pend_b: Option<A::SinkItem>,
    dead: bool,
    base_a: Ghost<Seq<A::SinkItem>>,
    base_b: Ghost<Seq<A::SinkItem>>,
    acc: Ghost<Seq<A::SinkItem>>,
}

impl<A: Sink, B: Sink<SinkItem = A::SinkItem, SinkError = A::SinkError>> Fanout<A, B> where
    A::SinkItem: Copy,
{
    /// The first branch.
    pub closed spec fn spec_a(&self) -> A {
        self.a
    }

    /// The second branch.
    pub closed spec fn spec_b(&self) -> B {
        self.b
    }

    /// What the first branch had accepted when this adapter was created.
    pub closed spec fn base_a(&self) -> Seq<A::SinkItem> {
        self.base_a@
    }

    /// What the second branch had accepted when this adapter was created.
    pub closed spec fn base_b(&self) -> Seq<A::SinkItem> {
        self.base_b@
    }

    /// True while the first branch has not yet taken the latest item.
    pub closed spec fn pending_a(&self) -> bool {
        self.pend_a is Some
    }

    /// True while the second branch has not yet taken the latest item.
    pub closed spec fn pending_b(&self) -> bool {
        self.pend_b is Some
    }

    /// True once a branch error has wedged the adapter.
    pub closed spec fn failed(&self) -> bool {
        self.dead
    }

    /// Replicate to `a` and `b`.
    pub fn new(a: A, b: B) -> (r: Self)
        requires
            a.inv(),
            b.inv(),
        ensures
            r.inv(),
            r.received() == Seq::<A::SinkItem>::empty(),
            !r.failed(),
            !r.pending_a(),
            !r.pending_b(),
            r.closed() == (a.closed() || b.closed()),
            r.spec_a() == a,
            r.spec_b() == b,
            r.base_a() == a.received(),
            r.base_b() == b.received(),
    {
        let r = Fanout {
            base_a: Ghost(a.received()),
            base_b: Ghost(b.received()),
            a,
            b,
            pend_a: None,
            pend_b: None,
            dead: false,
            acc: Ghost(Seq::empty()),
        };
        proof {
            assert(r.a.received() + opt_seq(r.pend_a) =~= r.base_a@ + r.acc@);
            assert(r.b.received() + opt_seq(r.pend_b) =~= r.base_b@ + r.acc@);
        }
        r
    }

    /// Consume the adapter, handing back both branches.
    pub fn into_inner(self) -> (r: (A, B))
        ensures
            r.0 == self.spec_a(),
            r.1 == self.spec_b(),
    {
        (self.a, self.b)
    }

    /// Offer one item to both branches.
    ///
    /// The item is accepted unless a branch still holds the previous one;
    /// each branch that does not take its copy at once keeps it in that
    /// branch's staging slot. An error from either branch surfaces at
    /// once and wedges the adapter; the second branch is never offered an
    /// item the first branch failed on, and a wedged adapter rejects
    /// everything and touches neither branch again.
    pub fn offer(&mut self, item: A::SinkItem) -> (r: Result<
        StartSend<A::SinkItem>,
        A::SinkError,
    >)
        requires
            old(self).inv(),
            !old(self).closed(),
        ensures
            final(self).inv(),
            final(self).closed() == old(self).closed(),
            final(self).base_a() == old(self).base_a(),
            final(self).base_b() == old(self).base_b(),
            match r {
                Ok(StartSend::Accepted) => final(self).received() == old(self).received().push(
                    item,
                ),
                Ok(StartSend::Rejected(it)) => it == item && final(self).received() == old(
                    self,
                ).received(),
                Err(_) => final(self).received() == old(self).received(),
            },
            old(self).failed() ==> (r matches Ok(StartSend::Rejected(_)))
                && final(self).spec_a() == old(self).spec_a()
                && final(self).spec_b() == old(self).spec_b()
                && final(self).failed(),
            (r matches Err(_)) ==> final(self).failed()
                && final(self).spec_b().received() == old(self).spec_b().received(),
            !(r matches Err(_)) ==> final(self).failed() == old(self).failed(),
            (r matches Ok(StartSend::Rejected(_))) <==> (old(self).failed() || old(
                self,
            ).pending_a() || old(self).pending_b()),
            (r matches Ok(StartSend::Rejected(_))) ==> final(self).spec_a() == old(self).spec_a()
                && final(self).spec_b() == old(self).spec_b()
                && final(self).pending_a() == old(self).pending_a()
                && final(self).pending_b() == old(self).pending_b(),
    {
        if self.dead {
            return Ok(StartSend::Rejected(item));
        }
        if self.pend_a.is_some() || self.pend_b.is_some() {
            return Ok(StartSend::Rejected(item));
        }
        match self.a.start_send(item) {
            Ok(StartSend::Accepted) => {},
            Ok(StartSend::Rejected(x)) => {
                self.pend_a = Some(x);
            },
            Err(e) => {
                self.dead = true;
                return Err(e);
            },
        }
        match self.b.start_send(item) {
            Ok(StartSend::Accepted) => {},
            Ok(StartSend::Rejected(x)) => {
                self.pend_b = Some(x);
            },
            Err(e) => {
                self.dead = true;
                return Err(e);
            },
        }
        proof {
            self.acc@ = self.acc@.push(item);
            assert(self.a.received() + opt_seq(self.pend_a)
                =~= (old(self).a.received() + opt_seq(old(self).pend_a)).push(item));
            assert(self.base_a@ + self.acc@ =~= (self.base_a@ + old(self).acc@).push(item));
            assert(self.b.received() + opt_seq(self.pend_b)
                =~= (old(self).b.received() + opt_seq(old(self).pend_b)).push(item));
            assert(self.base_b@ + self.acc@ =~= (self.base_b@ + old(self).acc@).push(item));
        }
        Ok(StartSend::Accepted)
    }

    /// Retry the staged copies, then drive both branches' completion.
    /// A wedged adapter stays suspended and touches neither branch.
    pub fn drive(&mut self) -> (r: Poll<Result<(), A::SinkError>>)
        requires
            old(self).inv(),
        ensures
            final(self).inv(),
            final(self).received() == old(self).received(),
            final(self).closed() == old(self).closed(),
            match r {
                Poll::Ready(res) => res is Ok ==> final(self).flushed(),
                Poll::Pending => true,
            },
            old(self).failed() ==> r is Pending && final(self).spec_a() == old(self).spec_a()
                && final(self).spec_b() == old(self).spec_b(),
            (r matches Poll::Ready(Err(_))) ==> final(self).failed(),
            !(r matches Poll::Ready(Err(_))) ==> final(self).failed() == old(self).failed(),
            final(self).base_a() == old(self).base_a(),
            final(self).base_b() == old(self).base_b(),
            (r matches Poll::Ready(Ok(_))) ==> !final(self).pending_a()
                && !final(self).pending_b() && !final(self).failed()
                && final(self).spec_a().flushed() && final(self).spec_b().flushed(),
    {
        if self.dead {
            return Poll::Pending;
        }
        match self.pend_a.take() {
            Some(x) => match self.a.start_send(x) {
                Ok(StartSend::Accepted) => {
                    proof {
                        assert(self.a.received() + opt_seq(self.pend_a)
                            =~= old(self).a.received() + opt_seq(old(self).pend_a));
                    }
                },
                Ok(StartSend::Rejected(x2)) => {
                    self.pend_a = Some(x2);
                },
                Err(e) => {
                    self.dead = true;
                    return Poll::Ready(Err(e));
                },
            },
            None => {},
        }
        match self.pend_b.take() {
            Some(x) => match self.b.start_send(x) {
                Ok(StartSend::Accepted) => {
                    proof {
                        assert(self.b.received() + opt_seq(self.pend_b)
                            =~= old(self).b.received() + opt_seq(old(self).pend_b));
                    }
                },
                Ok(StartSend::Rejected(x2)) => {
                    self.pend_b = Some(x2);
                },
                Err(e) => {
                    self.dead = true;
                    return Poll::Ready(Err(e));
                },
            },
            None => {},
        }
        if self.pend_a.is_some() || self.pend_b.is_some() {
            return Poll::Pending;
        }
        match self.a.poll_complete() {
            Poll::Ready(res) => match res {
                Ok(()) => {},
                Err(e) => {
                    self.dead = true;
                    return Poll::Ready(Err(e));
                },
            },
            Poll::Pending => {
                return Poll::Pending;
            },
        }
        match self.b.poll_complete() {
            Poll::Ready(res) => match res {
                Ok(()) => Poll::Ready(Ok(())),
                Err(e) => {
                    self.dead = true;
                    Poll::Ready(Err(e))
                },
            },
            Poll::Pending => Poll::Pending,
        }
    }

    /// Deliver the staged copies, flush both branches, then close both.
    /// Readiness means both branches took every copy, are flushed and are
    /// closed; a wedged adapter stays suspended and touches neither.
    pub fn shutdown(&mut self) -> (r: Poll<Result<(), A::SinkError>>)
        requires
            old(self).inv(),
        ensures
            final(self).inv(),
            final(self).received() == old(self).received(),
            old(self).closed() ==> final(self).closed(),
            final(self).base_a() == old(self).base_a(),
            final(self).base_b() == old(self).base_b(),
            old(self).failed() ==> r is Pending && final(self).spec_a() == old(self).spec_a()
                && final(self).spec_b() == old(self).spec_b(),
            !(r matches Poll::Ready(Err(_))) ==> final(self).failed() == old(self).failed(),
            match r {
                Poll::Ready(res) => res is Ok ==> final(self).flushed() && final(self).closed()
                    && !final(self).failed() && !final(self).pending_a()
                    && !final(self).pending_b() && final(self).spec_a().closed()
                    && final(self).spec_b().closed(),
                Poll::Pending => true,
            },
    {
        match self.drive() {
            Poll::Ready(res) => match res {
                Ok(()) => {},
                Err(e) => {
                    return Poll::Ready(Err(e));
                },
            },
            Poll::Pending => {
                return Poll::Pending;
            },
        }
        match self.a.close() {
            Poll::Ready(res) => match res {
                Ok(()) => {},
                Err(e) => {
                    self.dead = true;
                    return Poll::Ready(Err(e));
                },
            },
            Poll::Pending => {
                return Poll::Pending;
            },
        }
        match self.b.close() {
            Poll::Ready(res) => match res {
                Ok(()) => Poll::Ready(Ok(())),
                Err(e) => {
                    self.dead = true;
                    Poll::Ready(Err(e))
                },
            },
            Poll::Pending => Poll::Pending,
        }
    }
}

/// Both branches hold equal-length, order-preserving copies of the
/// accepted sequence: each has taken exactly the accepted items, in
/// order, short of the one item its staging slot may still hold.
pub proof fn lemma_fanout_mirrors<A: Sink, B: Sink<SinkItem = A::SinkItem, SinkError = A::SinkError>>(
    f: &Fanout<A, B>,
)where
    A::SinkItem: Copy,

    requires
        f.inv(),
        !f.failed(),
    ensures
        f.spec_a().received() =~= f.base_a() + f.received().take(
            f.received().len() - (if f.pending_a() { 1int } else { 0int }),
        ),
        f.spec_b().received() =~= f.base_b() + f.received().take(
            f.received().len() - (if f.pending_b() { 1int } else { 0int }),
        ),
{
    assert((f.a.received() + opt_seq(f.pend_a)).len() == (f.base_a@ + f.acc@).len());
    assert((f.b.received() + opt_seq(f.pend_b)).len() == (f.base_b@ + f.acc@).len());
    let na = f.a.received().len() as int;
    let da = f.acc@.len() - (if f.pending_a() { 1int } else { 0int });
    assert(f.a.received().len() == f.base_a@.len() + da);
    assert forall|i: int| 0 <= i < na implies
        f.a.received()[i] == (f.base_a@ + f.acc@.take(da))[i] by {
        assert((f.a.received() + opt_seq(f.pend_a))[i] == f.a.received()[i]);
        assert((f.base_a@ + f.acc@)[i] == (f.base_a@ + f.acc@.take(da))[i]);
    }
    assert(f.spec_a().received() =~= f.base_a() + f.received().take(
        f.received().len() - (if f.pending_a() { 1int } else { 0int }),
    ));
    let nb = f.b.received().len() as int;
    let db = f.acc@.len() - (if f.pending_b() { 1int } else { 0int });
    assert(f.b.received().len() == f.base_b@.len() + db);
    assert forall|i: int| 0 <= i < nb implies
        f.b.received()[i] == (f.base_b@ + f.acc@.take(db))[i] by {
        assert((f.b.received() + opt_seq(f.pend_b))[i] == f.b.received()[i]);
        assert((f.base_b@ + f.acc@)[i] == (f.base_b@ + f.acc@.take(db))[i]);
    }
    assert(f.spec_b().received() =~= f.base_b() + f.received().take(
        f.received().len() - (if f.pending_b() { 1int } else { 0int }),
    ));
}

impl<A: Sink, B: Sink<SinkItem = A::SinkItem, SinkError = A::SinkError>> Sink for Fanout<A, B> where
    A::SinkItem: Copy,
{
    type SinkItem = A::SinkItem;

    type SinkError = A::SinkError;

    closed spec fn received(&self) -> Seq<A::SinkItem> {
        self.acc@
    }

    closed spec fn flushed(&self) -> bool {
        !self.dead && self.pend_a is None && self.pend_b is None && self.a.flushed()
            && self.b.flushed()
    }

    closed spec fn closed(&self) -> bool {
        self.a.closed() || self.b.closed()
    }

    closed spec fn inv(&self) -> bool {
        &&& self.a.inv()
        &&& self.b.inv()
        &&& !self.dead ==> {
            &&& self.a.received() + opt_seq(self.pend_a) == self.base_a@ + self.acc@
            &&& self.b.received() + opt_seq(self.pend_b) == self.base_b@ + self.acc@
            &&& self.pend_a is Some ==> !self.a.closed() && self.acc@.len() > 0
            &&& self.pend_b is Some ==> !self.b.closed() && self.acc@.len() > 0
        }
    }

    fn start_send(&mut self, item: A::SinkItem) -> (r: Result<StartSend<A::SinkItem>, A::SinkError>) {
        self.offer(item)
    }

    fn poll_complete(&mut self) -> (r: Poll<Result<(), A::SinkError>>) {
        self.drive()
    }

    fn close(&mut self) -> (r: Poll<Result<(), A::SinkError>>) {
        self.shutdown()
    }
}

} // verus!
