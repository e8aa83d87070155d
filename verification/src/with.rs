//! Transforming each incoming item through an asynchronous function.

use vstd::prelude::*;
use crate::poll::{Poll, StartSend};
use crate::sink::{opt_seq, Sink};
use crate::scripted::FaultKind;

verus! {

/// A single-value future: polls to `Pending` some number of times, then
/// resolves exactly once to a predetermined outcome.
pub trait ItemFuture: Sized {
    type Item;

    type Error;

    /// The outcome this future resolves to.
    spec fn outcome(&self) -> Result<Self::Item, Self::Error>;

    /// True once the future has resolved.
    spec fn resolved(&self) -> bool;

    /// Well-formedness of the future's state.
    spec fn inv(&self) -> bool;

    /// One attempt to resolve the future.
    fn poll_value(&mut self) -> (r: Poll<Result<Self::Item, Self::Error>>)
        requires
            old(self).inv(),
            !old(self).resolved(),
        ensures
            final(self).inv(),
            final(self).outcome() == old(self).outcome(),
            match r {
                Poll::Ready(res) => res == old(self).outcome() && final(self).resolved(),
                Poll::Pending => !final(self).resolved(),
            },
    ;
}

/// A transform from one incoming item to a future of an outgoing item.
pub trait MakesFuture: Sized {
    type Input;

    type Fut: ItemFuture;

    /// The outcome of the future produced for each input.
    spec fn spec_make(&self, u: Self::Input) -> Result<
        <Self::Fut as ItemFuture>::Item,
        <Self::Fut as ItemFuture>::Error,
    >;

    /// Produce the future for one input.
    fn make(&self, u: Self::Input) -> (fut: Self::Fut)
        ensures
            fut.inv(),
            !fut.resolved(),
            fut.outcome() == self.spec_make(u),
    ;
}

/// The successfully transformed values of a sequence of inputs, in
/// order; an input whose transform fails contributes nothing (the
/// adapter stops at the first such failure anyway).
pub open spec fn mapped_items<F: MakesFuture>(f: F, s: Seq<F::Input>) -> Seq<
    <F::Fut as ItemFuture>::Item,
>
    decreases s.len(),
{
    if s.len() == 0 {
        Seq::empty()
    } else {
        mapped_items(f, s.drop_last()) + (match f.spec_make(s.last()) {
            Ok(v) => seq![v],
            Err(_) => Seq::empty(),
        })
    }
}

/// A future that stalls a preset number of times, then resolves to a
/// preset outcome.
pub struct DelayedFuture<T> {
    slot: Option<Result<T, FaultKind>>,
    stalls: usize,
    out: Ghost<Result<T, FaultKind>>,
}

impl<T> DelayedFuture<T> {
    /// A future resolving to `res` after `stalls` pending polls.
    pub fn new(res: Result<T, FaultKind>, stalls: usize) -> (r: Self)
        ensures
            r.inv(),
            !r.resolved(),
            r.outcome() == res,
    {
        DelayedFuture { out: Ghost(res), slot: Some(res), stalls }
    }
}

impl<T> ItemFuture for DelayedFuture<T> {
    type Item = T;

    type Error = FaultKind;

    closed spec fn outcome(&self) -> Result<T, FaultKind> {
        self.out@
    }

    closed spec fn resolved(&self) -> bool {
        self.slot is None
    }

    closed spec fn inv(&self) -> bool {
        self.slot is Some ==> self.slot->0 == self.out@
    }

    fn poll_value(&mut self) -> (r: Poll<Result<T, FaultKind>>) {
        if self.stalls > 0 {
            self.stalls = self.stalls - 1;
            Poll::Pending
        } else {
            let res = self.slot.take().unwrap();
            Poll::Ready(res)
        }
    }
}

/// Transforms each `u64` item into itself through a future that stalls
/// a preset number of times before resolving.
pub struct DelayedIdentity {
    pub stalls: usize,
}

impl MakesFuture for DelayedIdentity {
    type Input = u64;

    type Fut = DelayedFuture<u64>;

    open spec fn spec_make(&self, u: u64) -> Result<u64, FaultKind> {
        Ok(u)
    }

    fn make(&self, u: u64) -> (fut: DelayedFuture<u64>) {
        DelayedFuture::new(Ok(u), self.stalls)
    }
}

/// Passes each accepted item through an asynchronous transform and
/// forwards the resolved value to the inner sink.
///
/// At most one transform is in flight: a new item is rejected while one
/// is still unresolved or its value still waits for the inner sink. A
/// transform error or an inner error is terminal and wedges the adapter.
pub struct With<S: Sink, F: MakesFuture> where
    F::Fut: ItemFuture<Item = S::SinkItem, Error = S::SinkError>,
{
    sink: S,
    f: F,
    fut: Option<F::Fut>,
    stash: Option<S::SinkItem>,
    dead: bool,
    acc: Ghost<Seq<F::Input>>,
    base: Ghost<Seq<S::SinkItem>>,
    sent: Ghost<Seq<S::SinkItem>>,
}

impl<S: Sink, F: MakesFuture> With<S, F> where
    F::Fut: ItemFuture<Item = S::SinkItem, Error = S::SinkError>,
{
    /// The inner sink.
    pub closed spec fn spec_inner(&self) -> S {
        self.sink
    }

    /// The transform.
    pub closed spec fn spec_f(&self) -> F {
        self.f
    }

    /// What the inner sink had accepted when this adapter was created.
    pub closed spec fn base(&self) -> Seq<S::SinkItem> {
        self.base@
    }

    /// True once an error has wedged the adapter.
    pub closed spec fn failed(&self) -> bool {
        self.dead
    }

    /// True while a transform is unresolved or its value still waits for
    /// the inner sink.
    pub closed spec fn busy(&self) -> bool {
        self.fut is Some || self.stash is Some
    }

    /// Wrap `sink`, transforming every item through `f`.
    pub fn new(sink: S, f: F) -> (r: Self)
        requires
            sink.inv(),
        ensures
            r.inv(),
            r.received() == Seq::<F::Input>::empty(),
            !r.failed(),
            r.closed() == sink.closed(),
            r.flushed() == sink.flushed(),
            r.spec_inner() == sink,
            r.spec_f() == f,
            r.base() == sink.received(),
    {
        let r = With {
            base: Ghost(sink.received()),
            sink,
            f,
            fut: None,
            stash: None,
            dead: false,
            acc: Ghost(Seq::empty()),
            sent: Ghost(Seq::empty()),
        };
        proof {
            assert(r.sink.received() =~= r.base@ + r.sent@);
        }
        r
    }

    /// A read-only view of the inner sink.
    pub fn get_ref(&self) -> (r: &S)
        ensures
            *r == self.spec_inner(),
    {
        &self.sink
    }

    /// Consume the adapter, handing back the inner sink.
    pub fn into_inner(self) -> (r: S)
        ensures
            r == self.spec_inner(),
    {
        self.sink
    }

    /// Offer one item. It is accepted exactly when no transform is in
    /// flight and no error has wedged the adapter; otherwise it is handed
    /// back and nothing changes. The inner sink is never touched here.
    pub fn offer(&mut self, item: F::Input) -> (r: Result<StartSend<F::Input>, S::SinkError>)
        requires
            old(self).inv(),
            !old(self).closed(),
        ensures
            final(self).inv(),
            final(self).closed() == old(self).closed(),
            final(self).base() == old(self).base(),
            final(self).spec_f() == old(self).spec_f(),
            final(self).failed() == old(self).failed(),
            final(self).spec_inner() == old(self).spec_inner(),
            !(r matches Err(_)),
            match r {
                Ok(StartSend::Accepted) => final(self).received() == old(self).received().push(
                    item,
                ),
                Ok(StartSend::Rejected(it)) => it == item && final(self).received() == old(
                    self,
                ).received(),
                Err(_) => final(self).received() == old(self).received(),
            },
            (r matches Ok(StartSend::Accepted)) <==> !(old(self).failed() || old(self).busy()),
            (r matches Ok(StartSend::Accepted)) ==> final(self).busy(),
            (r matches Ok(StartSend::Rejected(_))) ==> final(self).busy() == old(self).busy(),
    {
        if self.dead {
            return Ok(StartSend::Rejected(item));
        }
        if self.fut.is_some() || self.stash.is_some() {
            return Ok(StartSend::Rejected(item));
        }
        let fut = self.f.make(item);
        self.fut = Some(fut);
        proof {
            self.acc@ = self.acc@.push(item);
            assert(self.acc@.drop_last() =~= old(self).acc@);
            assert(self.acc@.last() == item);
        }
        Ok(StartSend::Accepted)
    }

    /// Resolve any pending transform, forward its value, then drive the
    /// inner sink's completion. Readiness means nothing is in flight and
    /// the inner sink is flushed; a wedged adapter stays suspended.
    pub fn drive(&mut self) -> (r: Poll<Result<(), S::SinkError>>)
        requires
            old(self).inv(),
        ensures
            final(self).inv(),
            final(self).received() == old(self).received(),
            final(self).closed() == old(self).closed(),
            final(self).base() == old(self).base(),
            final(self).spec_f() == old(self).spec_f(),
            old(self).failed() ==> r is Pending
                && final(self).spec_inner() == old(self).spec_inner(),
            !(r matches Poll::Ready(Err(_))) ==> final(self).failed() == old(self).failed(),
            match r {
                Poll::Ready(res) => res is Ok ==> final(self).flushed() && !final(self).busy()
                    && !final(self).failed() && final(self).spec_inner().flushed(),
                Poll::Pending => true,
            },
    {
        if self.dead {
            return Poll::Pending;
        }
        if self.fut.is_some() {
            let mut fut = self.fut.take().unwrap();
            match fut.poll_value() {
                Poll::Ready(res) => match res {
                    Ok(v) => {
                        match self.sink.start_send(v) {
                            Ok(StartSend::Accepted) => {
                                proof {
                                    self.sent@ = self.sent@.push(v);
                                    assert(self.sink.received() =~= self.base@ + self.sent@);
                                    assert(self.acc@.drop_last().push(self.acc@.last())
                                        =~= self.acc@);
                                    assert(mapped_items(self.f, self.acc@)
                                        == mapped_items(self.f, self.acc@.drop_last())
                                        + seq![v]);
                                    assert(self.sent@ =~= mapped_items(self.f, self.acc@));
                                }
                            },
                            Ok(StartSend::Rejected(v2)) => {
                                self.stash = Some(v2);
                                return Poll::Pending;
                            },
                            Err(e) => {
                                self.dead = true;
                                return Poll::Ready(Err(e));
                            },
                        }
                    },
                    Err(e) => {
                        self.dead = true;
                        return Poll::Ready(Err(e));
                    },
                },
                Poll::Pending => {
                    self.fut = Some(fut);
                    return Poll::Pending;
                },
            }
        } else if self.stash.is_some() {
            let x = self.stash.take().unwrap();
            match self.sink.start_send(x) {
                Ok(StartSend::Accepted) => {
                    proof {
                        self.sent@ = self.sent@.push(x);
                        assert(self.sink.received() =~= self.base@ + self.sent@);
                        assert(self.acc@.drop_last().push(self.acc@.last()) =~= self.acc@);
                        assert(mapped_items(self.f, self.acc@)
                            == mapped_items(self.f, self.acc@.drop_last()) + seq![x]);
                        assert(self.sent@ =~= mapped_items(self.f, self.acc@));
                    }
                },
                Ok(StartSend::Rejected(x2)) => {
                    self.stash = Some(x2);
                    return Poll::Pending;
                },
                Err(e) => {
                    self.dead = true;
                    return Poll::Ready(Err(e));
                },
            }
        }
        match self.sink.poll_complete() {
            Poll::Ready(res) => match res {
                Ok(()) => Poll::Ready(Ok(())),
                Err(e) => {
                    self.dead = true;
                    Poll::Ready(Err(e))
                },
            },
            Poll::Pending => Poll::Pending,
        }
    }

    /// Resolve and forward any pending work, flush the inner sink, then
    /// close it. Readiness means everything reached the inner sink and it
    /// is closed; a wedged adapter stays suspended.
    pub fn shutdown(&mut self) -> (r: Poll<Result<(), S::SinkError>>)
        requires
            old(self).inv(),
        ensures
            final(self).inv(),
            final(self).received() == old(self).received(),
            old(self).closed() ==> final(self).closed(),
            final(self).base() == old(self).base(),
            final(self).spec_f() == old(self).spec_f(),
            old(self).failed() ==> r is Pending
                && final(self).spec_inner() == old(self).spec_inner(),
            !(r matches Poll::Ready(Err(_))) ==> final(self).failed() == old(self).failed(),
            match r {
                Poll::Ready(res) => res is Ok ==> final(self).flushed() && final(self).closed()
                    && !final(self).busy() && !final(self).failed()
                    && final(self).spec_inner().flushed() && final(self).spec_inner().closed(),
                Poll::Pending => true,
            },
    {
        match self.drive() {
            Poll::Ready(res) => match res {
                Ok(()) => match self.sink.close() {
                    Poll::Ready(res2) => Poll::Ready(res2),
                    Poll::Pending => Poll::Pending,
                },
                Err(e) => Poll::Ready(Err(e)),
            },
            Poll::Pending => Poll::Pending,
        }
    }
}

/// Once the adapter is flushed, the inner sink has accepted exactly the
/// transformed values of every item the adapter accepted, in order.
pub proof fn lemma_with_delivery<S: Sink, F: MakesFuture>(w: &With<S, F>) where
    F::Fut: ItemFuture<Item = S::SinkItem, Error = S::SinkError>,

    requires
        w.inv(),
        w.flushed(),
    ensures
        w.spec_inner().received() =~= w.base() + mapped_items(w.spec_f(), w.received()),
{
}

impl<S: Sink, F: MakesFuture> Sink for With<S, F> where
    F::Fut: ItemFuture<Item = S::SinkItem, Error = S::SinkError>,
{
    type SinkItem = F::Input;

    type SinkError = S::SinkError;

    closed spec fn received(&self) -> Seq<F::Input> {
        self.acc@
    }

    closed spec fn flushed(&self) -> bool {
        !self.dead && self.fut is None && self.stash is None && self.sink.flushed()
    }

    closed spec fn closed(&self) -> bool {
        self.sink.closed()
    }

    closed spec fn inv(&self) -> bool {
        &&& self.sink.inv()
        &&& self.fut is Some ==> self.fut->0.inv() && !self.fut->0.resolved()
        &&& !(self.fut is Some && self.stash is Some)
        &&& !self.dead ==> {
            &&& self.sink.received() == self.base@ + self.sent@
            &&& self.fut is Some ==> {
                &&& self.acc@.len() > 0
                &&& self.fut->0.outcome() == self.f.spec_make(self.acc@.last())
                &&& self.sent@ == mapped_items(self.f, self.acc@.drop_last())
            }
            &&& self.stash is Some ==> {
                &&& self.acc@.len() > 0
                &&& self.f.spec_make(self.acc@.last()) == Ok::<S::SinkItem, S::SinkError>(
                    self.stash->0,
                )
                &&& self.sent@ == mapped_items(self.f, self.acc@.drop_last())
            }
            &&& self.fut is None && self.stash is None ==> self.sent@ == mapped_items(
                self.f,
                self.acc@,
            )
            &&& self.fut is Some || self.stash is Some ==> !self.sink.closed()
        }
    }

    fn start_send(&mut self, item: F::Input) -> (r: Result<StartSend<F::Input>, S::SinkError>) {
        self.offer(item)
    }

    fn poll_complete(&mut self) -> (r: Poll<Result<(), S::SinkError>>) {
        self.drive()
    }

    fn close(&mut self) -> (r: Poll<Result<(), S::SinkError>>) {
        self.shutdown()
    }
}

} // verus!
