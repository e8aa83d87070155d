//! Expanding each incoming item into a stream of forwarded items.

use vstd::prelude::*;
use crate::poll::{Poll, StartSend};
use crate::sink::{opt_seq, Sink};
use crate::stream::Stream;
use crate::scripted::SeqStream;

verus! {

/// A transform from one incoming item to a stream of outgoing items.
pub trait FlatMapFn: Sized {
    type Input;

    type St: Stream;

    /// The items the produced stream will yield for each input.
    spec fn spec_items(&self, u: Self::Input) -> Seq<<Self::St as Stream>::Item>;

    /// Produce the stream for one input.
    fn produce(&self, u: Self::Input) -> (st: Self::St)
        ensures
            st.inv(),
            !st.done(),
            st.future_items() == self.spec_items(u),
    ;
}

/// The concatenation of the expansions of a sequence of inputs.
pub open spec fn flat_items<F: FlatMapFn>(f: F, s: Seq<F::Input>) -> Seq<
    <F::St as Stream>::Item,
>
    decreases s.len(),
{
    if s.len() == 0 {
        Seq::empty()
    } else {
        flat_items(f, s.drop_last()) + f.spec_items(s.last())
    }
}

/// Expands each input into a fixed number of copies of one value.
pub struct RepeatFn {
    pub value: u64,
}

impl FlatMapFn for RepeatFn {
    type Input = usize;

    type St = SeqStream<u64>;

    open spec fn spec_items(&self, n: usize) -> Seq<u64> {
        Seq::new(n as nat, |i: int| self.value)
    }

    fn produce(&self, n: usize) -> (st: SeqStream<u64>) {
        let mut v: Vec<u64> = Vec::new();
        let mut i: usize = 0;
        while i < n
            invariant
                i <= n,
                v@ == Seq::new(i as nat, |j: int| self.value),
            decreases n - i,
        {
            v.push(self.value);
            i = i + 1;
            proof {
                assert(v@ =~= Seq::new(i as nat, |j: int| self.value));
            }
        }
        SeqStream::new(v)
    }
}

/// Passes each accepted item through a stream-producing transform and
/// drains that stream into the inner sink, in order, before the next
/// item is accepted.
///
/// A new item is rejected while an expansion is still being drained; the
/// one drained item the inner sink may have refused waits in a staging
/// slot. An inner error is terminal and wedges the adapter.
pub struct WithFlatMap<S: Sink, F: FlatMapFn> where F::St: Stream<Item = S::SinkItem> {
    sink: S,
    f: F,
    drain: Option<F::St>,
    stash: Option<S::SinkItem>,
    dead: bool,
    acc: Ghost<Seq<F::Input>>,
    base: Ghost<Seq<S::SinkItem>>,
    sent: Ghost<Seq<S::SinkItem>>,
    planned: Ghost<Seq<S::SinkItem>>,
}

impl<S: Sink, F: FlatMapFn> WithFlatMap<S, F> where F::St: Stream<Item = S::SinkItem> {
    /// The inner sink.
    pub closed spec fn spec_inner(&self) -> S {
        self.sink
    }

    /// The transform.
    pub closed spec fn spec_f(&self) -> F {
        self.f
    }

    /// What the inner sink had accepted when this adapter was created.
    pub closed spec fn base(&self) -> Seq<S::SinkItem> {
        self.base@
    }

    /// True once an inner error has wedged the adapter.
    pub closed spec fn failed(&self) -> bool {
        self.dead
    }

    /// True while an expansion is still being drained or one of its
    /// items still waits for the inner sink.
    pub closed spec fn busy(&self) -> bool {
        self.drain is Some || self.stash is Some
    }

    /// Wrap `sink`, expanding every item through `f`.
    pub fn new(sink: S, f: F) -> (r: Self)
        requires
            sink.inv(),
        ensures
            r.inv(),
            r.received() == Seq::<F::Input>::empty(),
            !r.failed(),
            r.closed() == sink.closed(),
            r.flushed() == sink.flushed(),
            r.spec_inner() == sink,
            r.spec_f() == f,
            r.base() == sink.received(),
    {
        let r = WithFlatMap {
            base: Ghost(sink.received()),
            sink,
            f,
            drain: None,
            stash: None,
            dead: false,
            acc: Ghost(Seq::empty()),
            sent: Ghost(Seq::empty()),
            planned: Ghost(Seq::empty()),
        };
        proof {
            assert(r.sink.received() =~= r.base@ + r.sent@);
            assert(r.planned@ =~= r.sent@ + opt_seq(r.stash) + Seq::<S::SinkItem>::empty());
        }
        r
    }

    /// A read-only view of the inner sink.
    pub fn get_ref(&self) -> (r: &S)
        ensures
            *r == self.spec_inner(),
    {
        &self.sink
    }

    /// Consume the adapter, handing back the inner sink.
    pub fn into_inner(self) -> (r: S)
        ensures
            r == self.spec_inner(),
    {
        self.sink
    }

    /// Offer one item. It is accepted exactly when no expansion is still
    /// draining and no error has wedged the adapter; otherwise it is
    /// handed back and nothing changes. On acceptance the transform is
    /// invoked once and its stream becomes the active drain; the inner
    /// sink is never touched here.
    pub fn offer(&mut self, item: F::Input) -> (r: Result<StartSend<F::Input>, S::SinkError>)
        requires
            old(self).inv(),
            !old(self).closed(),
        ensures
            final(self).inv(),
            final(self).closed() == old(self).closed(),
            final(self).base() == old(self).base(),
            final(self).spec_f() == old(self).spec_f(),
            final(self).failed() == old(self).failed(),
            final(self).spec_inner() == old(self).spec_inner(),
            !(r matches Err(_)),
            match r {
                Ok(StartSend::Accepted) => final(self).received() == old(self).received().push(
                    item,
                ),
                Ok(StartSend::Rejected(it)) => it == item && final(self).received() == old(
                    self,
                ).received(),
                Err(_) => final(self).received() == old(self).received(),
            },
            (r matches Ok(StartSend::Accepted)) <==> !(old(self).failed() || old(self).busy()),
            (r matches Ok(StartSend::Accepted)) ==> final(self).busy(),
            (r matches Ok(StartSend::Rejected(_))) ==> final(self).busy() == old(self).busy(),
    {
        if self.dead {
            return Ok(StartSend::Rejected(item));
        }
        if self.drain.is_some() || self.stash.is_some() {
            return Ok(StartSend::Rejected(item));
        }
        let st = self.f.produce(item);
        self.drain = Some(st);
        proof {
            self.acc@ = self.acc@.push(item);
            self.planned@ = self.planned@ + self.f.spec_items(item);
            assert(self.acc@.drop_last() =~= old(self).acc@);
            assert(self.acc@.last() == item);
            assert(flat_items(self.f, self.acc@)
                == flat_items(self.f, old(self).acc@) + self.f.spec_items(item));
            assert(self.planned@ =~= self.sent@ + opt_seq(self.stash) + self.drain_items());
        }
        Ok(StartSend::Accepted)
    }

    /// Forward any staged item, drain the active expansion into the
    /// inner sink, in order, then drive the inner sink's completion.
    /// Readiness means no expansion is outstanding and the inner sink is
    /// flushed; a wedged adapter stays suspended.
    pub fn drive(&mut self) -> (r: Poll<Result<(), S::SinkError>>)
        requires
            old(self).inv(),
        ensures
            final(self).inv(),
            final(self).received() == old(self).received(),
            final(self).closed() == old(self).closed(),
            final(self).base() == old(self).base(),
            final(self).spec_f() == old(self).spec_f(),
            old(self).failed() ==> r is Pending
                && final(self).spec_inner() == old(self).spec_inner(),
            !(r matches Poll::Ready(Err(_))) ==> final(self).failed() == old(self).failed(),
            match r {
                Poll::Ready(res) => res is Ok ==> final(self).flushed() && !final(self).busy()
                    && !final(self).failed() && final(self).spec_inner().flushed(),
                Poll::Pending => true,
            },
    {
        if self.dead {
            return Poll::Pending;
        }
        if self.stash.is_some() {
            let x = self.stash.take().unwrap();
            match self.sink.start_send(x) {
                Ok(StartSend::Accepted) => {
                    proof {
                        self.sent@ = self.sent@.push(x);
                        assert(self.sink.received() =~= self.base@ + self.sent@);
                        assert(self.planned@ =~= self.sent@ + opt_seq(self.stash)
                            + self.drain_items());
                    }
                },
                Ok(StartSend::Rejected(x2)) => {
                    self.stash = Some(x2);
                    return Poll::Pending;
                },
                Err(e) => {
                    self.dead = true;
                    return Poll::Ready(Err(e));
                },
            }
        }
        if self.drain.is_some() {
            let mut dst = self.drain.take().unwrap();
            loop
                invariant_except_break
                    self.sink.inv(),
                    dst.inv(),
                    !self.sink.closed(),
                    !self.dead,
                    !old(self).failed(),
                    self.stash is None,
                    self.drain is None,
                    self.sink.received() == self.base@ + self.sent@,
                    self.planned@ == self.sent@ + dst.future_items(),
                    self.planned@ == flat_items(self.f, self.acc@),
                    self.acc@ == old(self).acc@,
                    self.base@ == old(self).base@,
                    self.planned@ == old(self).planned@,
                    self.f == old(self).f,
                    self.sink.closed() == old(self).sink.closed(),
                ensures
                    self.sink.inv(),
                    !self.dead,
                    self.stash is None,
                    self.drain is None,
                    self.sink.received() == self.base@ + self.sent@,
                    self.planned@ == self.sent@,
                    self.planned@ == flat_items(self.f, self.acc@),
                    self.acc@ == old(self).acc@,
                    self.base@ == old(self).base@,
                    self.planned@ == old(self).planned@,
                    self.f == old(self).f,
                    self.sink.closed() == old(self).sink.closed(),
                decreases dst.future_items().len(),
            {
                let ghost pre_sent = self.sent@;
                let ghost pre_items = dst.future_items();
                match dst.poll_next() {
                    Poll::Ready(step) => match step {
                        Some(x) => {
                            match self.sink.start_send(x) {
                                Ok(StartSend::Accepted) => {
                                    proof {
                                        self.sent@ = self.sent@.push(x);
                                        assert(self.sink.received() =~= self.base@ + self.sent@);
                                        assert(self.sent@ + dst.future_items()
                                            =~= pre_sent + pre_items);
                                    }
                                },
                                Ok(StartSend::Rejected(x2)) => {
                                    self.stash = Some(x2);
                                    self.drain = Some(dst);
                                    proof {
                                        assert(self.sent@ + opt_seq(self.stash) + self.drain_items()
                                            =~= pre_sent + pre_items);
                                    }
                                    return Poll::Pending;
                                },
                                Err(e) => {
                                    self.dead = true;
                                    return Poll::Ready(Err(e));
                                },
                            }
                        },
                        None => {
                            proof {
                                assert(self.planned@ =~= self.sent@);
                            }
                            break;
                        },
                    },
                    Poll::Pending => {
                        self.drain = Some(dst);
                        proof {
                            assert(self.sent@ + opt_seq(self.stash) + self.drain_items()
                                =~= pre_sent + pre_items);
                        }
                        return Poll::Pending;
                    },
                }
            }
        }
        match self.sink.poll_complete() {
            Poll::Ready(res) => match res {
                Ok(()) => Poll::Ready(Ok(())),
                Err(e) => {
                    self.dead = true;
                    Poll::Ready(Err(e))
                },
            },
            Poll::Pending => Poll::Pending,
        }
    }

    /// Drain any outstanding expansion, flush the inner sink, then close
    /// it. Readiness means every expanded item reached the inner sink and
    /// it is closed; a wedged adapter stays suspended.
    pub fn shutdown(&mut self) -> (r: Poll<Result<(), S::SinkError>>)
        requires
            old(self).inv(),
        ensures
            final(self).inv(),
            final(self).received() == old(self).received(),
            old(self).closed() ==> final(self).closed(),
            final(self).base() == old(self).base(),
            final(self).spec_f() == old(self).spec_f(),
            old(self).failed() ==> r is Pending
                && final(self).spec_inner() == old(self).spec_inner(),
            !(r matches Poll::Ready(Err(_))) ==> final(self).failed() == old(self).failed(),
            match r {
                Poll::Ready(res) => res is Ok ==> final(self).flushed() && final(self).closed()
                    && !final(self).busy() && !final(self).failed()
                    && final(self).spec_inner().flushed() && final(self).spec_inner().closed(),
                Poll::Pending => true,
            },
    {
        match self.drive() {
            Poll::Ready(res) => match res {
                Ok(()) => match self.sink.close() {
                    Poll::Ready(res2) => Poll::Ready(res2),
                    Poll::Pending => Poll::Pending,
                },
                Err(e) => Poll::Ready(Err(e)),
            },
            Poll::Pending => Poll::Pending,
        }
    }

    /// The items an active expansion still has to deliver.
    pub closed spec fn drain_items(&self) -> Seq<S::SinkItem> {
        match self.drain {
            Some(st) => st.future_items(),
            None => Seq::empty(),
        }
    }
}

/// Once the adapter is flushed, the inner sink has accepted exactly the
/// concatenated expansions of every item the adapter accepted, in order.
pub proof fn lemma_flat_map_delivery<S: Sink, F: FlatMapFn>(w: &WithFlatMap<S, F>) where
    F::St: Stream<Item = S::SinkItem>,

    requires
        w.inv(),
        w.flushed(),
    ensures
        w.spec_inner().received() =~= w.base() + flat_items(w.spec_f(), w.received()),
{
}

impl<S: Sink, F: FlatMapFn> Sink for WithFlatMap<S, F> where F::St: Stream<Item = S::SinkItem> {
    type SinkItem = F::Input;

    type SinkError = S::SinkError;

    closed spec fn received(&self) -> Seq<F::Input> {
        self.acc@
    }

    closed spec fn flushed(&self) -> bool {
        !self.dead && self.stash is None && self.drain is None && self.sink.flushed()
    }

    closed spec fn closed(&self) -> bool {
        self.sink.closed()
    }

    closed spec fn inv(&self) -> bool {
        &&& self.sink.inv()
        &&& self.drain is Some ==> self.drain->0.inv()
        &&& !self.dead ==> {
            &&& self.sink.received() == self.base@ + self.sent@
            &&& self.planned@ == self.sent@ + opt_seq(self.stash) + self.drain_items()
            &&& self.planned@ == flat_items(self.f, self.acc@)
            &&& self.stash is Some || self.drain is Some ==> !self.sink.closed()
        }
    }

    fn start_send(&mut self, item: F::Input) -> (r: Result<StartSend<F::Input>, S::SinkError>) {
        self.offer(item)
    }

    fn poll_complete(&mut self) -> (r: Poll<Result<(), S::SinkError>>) {
        self.drive()
    }

    fn close(&mut self) -> (r: Poll<Result<(), S::SinkError>>) {
        self.shutdown()
    }
}

} // verus!
