//! Remapping a sink's error domain through a conversion constructor.

use vstd::prelude::*;
use core::marker::PhantomData;
use crate::poll::{Poll, StartSend};
use crate::sink::Sink;
use crate::scripted::FaultKind;

verus! {

/// An error type constructible from another error type.
pub trait FromError<E>: Sized {
    /// The value the conversion produces for each source error.
    spec fn spec_from(e: E) -> Self;

    /// Convert one error.
    fn from_error(e: E) -> (r: Self)
        ensures
            r == Self::spec_from(e),
    ;
}

/// A wrapper error that records which fault the inner sink reported.
#[derive(Clone, Copy, PartialEq, Eq, Structural, Debug)]
pub struct WrappedFault {
    pub kind: FaultKind,
}

impl FromError<FaultKind> for WrappedFault {
    open spec fn spec_from(e: FaultKind) -> WrappedFault {
        WrappedFault { kind: e }
    }

    fn from_error(e: FaultKind) -> (r: WrappedFault) {
        WrappedFault { kind: e }
    }
}

/// Forwards every operation to the inner sink unchanged, converting each
/// error that surfaces into the target error type. Unlike the one-shot
/// transform adapter, the conversion is a constructor of the target type
/// and can be applied any number of times.
pub struct SinkFromErr<S: Sink, E> {
    sink: S,
    marker: PhantomData<E>,
}

impl<S: Sink, E: FromError<S::SinkError>> SinkFromErr<S, E> {
    /// The inner sink.
    pub closed spec fn spec_inner(&self) -> S {
        self.sink
    }

    /// Wrap `sink`, converting its errors into `E`.
    pub fn new(sink: S) -> (r: Self)
        requires
            sink.inv(),
        ensures
            r.inv(),
            r.received() == sink.received(),
            r.flushed() == sink.flushed(),
            r.closed() == sink.closed(),
            r.spec_inner() == sink,
    {
        SinkFromErr { sink, marker: PhantomData }
    }

    /// A read-only view of the inner sink.
    pub fn get_ref(&self) -> (r: &S)
        ensures
            *r == self.spec_inner(),
    {
        &self.sink
    }

    /// Consume the adapter, handing back the inner sink.
    pub fn into_inner(self) -> (r: S)
        ensures
            r == self.spec_inner(),
    {
        self.sink
    }

    /// Offer one item. Item flow is the inner sink's own; an error that
    /// surfaces is the target type's conversion of the inner sink's
    /// error.
    pub fn offer(&mut self, item: S::SinkItem) -> (r: Result<StartSend<S::SinkItem>, E>)
        requires
            old(self).inv(),
            !old(self).closed(),
        ensures
            final(self).inv(),
            final(self).closed() == old(self).closed(),
            match r {
                Ok(StartSend::Accepted) => final(self).received() == old(self).received().push(
                    item,
                ),
                Ok(StartSend::Rejected(it)) => it == item && final(self).received() == old(
                    self,
                ).received(),
                Err(_) => final(self).received() == old(self).received(),
            },
            (r matches Err(_)) ==> exists|e: S::SinkError|
                r == Err::<StartSend<S::SinkItem>, E>(E::spec_from(e)),
            (r matches Ok(StartSend::Accepted)) ==> final(self).spec_inner().received() == old(
                self,
            ).spec_inner().received().push(item),
            !(r matches Ok(StartSend::Accepted)) ==> final(self).spec_inner().received() == old(
                self,
            ).spec_inner().received(),
    {
        match self.sink.start_send(item) {
            Ok(step) => Ok(step),
            Err(e) => {
                let ghost e0 = e;
                let w = E::from_error(e);
                proof {
                    assert(w == E::spec_from(e0));
                }
                Err(w)
            },
        }
    }

    /// Drive the inner sink's completion, converting a surfaced error
    /// into the target type.
    pub fn drive(&mut self) -> (r: Poll<Result<(), E>>)
        requires
            old(self).inv(),
        ensures
            final(self).inv(),
            final(self).received() == old(self).received(),
            final(self).closed() == old(self).closed(),
            final(self).spec_inner().received() == old(self).spec_inner().received(),
            (r matches Poll::Ready(Err(_))) ==> exists|e: S::SinkError|
                r == Poll::Ready(Err::<(), E>(E::spec_from(e))),
            match r {
                Poll::Ready(res) => res is Ok ==> final(self).flushed()
                    && final(self).spec_inner().flushed(),
                Poll::Pending => true,
            },
    {
        match self.sink.poll_complete() {
            Poll::Ready(res) => match res {
                Ok(()) => Poll::Ready(Ok(())),
                Err(e) => {
                    let ghost e0 = e;
                    let w = E::from_error(e);
                    proof {
                        assert(w == E::spec_from(e0));
                    }
                    Poll::Ready(Err(w))
                },
            },
            Poll::Pending => Poll::Pending,
        }
    }

    /// Flush, then close the inner sink, converting a surfaced error
    /// into the target type.
    pub fn shutdown(&mut self) -> (r: Poll<Result<(), E>>)
        requires
            old(self).inv(),
        ensures
            final(self).inv(),
            final(self).received() == old(self).received(),
            old(self).closed() ==> final(self).closed(),
            final(self).spec_inner().received() == old(self).spec_inner().received(),
            (r matches Poll::Ready(Err(_))) ==> exists|e: S::SinkError|
                r == Poll::Ready(Err::<(), E>(E::spec_from(e))),
            match r {
                Poll::Ready(res) => res is Ok ==> final(self).flushed() && final(self).closed()
                    && final(self).spec_inner().flushed() && final(self).spec_inner().closed(),
                Poll::Pending => true,
            },
    {
        match self.sink.close() {
            Poll::Ready(res) => match res {
                Ok(()) => Poll::Ready(Ok(())),
                Err(e) => {
                    let ghost e0 = e;
                    let w = E::from_error(e);
                    proof {
                        assert(w == E::spec_from(e0));
                    }
                    Poll::Ready(Err(w))
                },
            },
            Poll::Pending => Poll::Pending,
        }
    }
}

/// The adapter is fully transparent for items: what it counts as
/// accepted, flushed and closed is exactly what the inner sink does.
pub proof fn lemma_from_err_transparent<S: Sink, E: FromError<S::SinkError>>(
    m: &SinkFromErr<S, E>,
)
    ensures
        m.received() == m.spec_inner().received(),
        m.flushed() == m.spec_inner().flushed(),
        m.closed() == m.spec_inner().closed(),
{
}

impl<S: Sink, E: FromError<S::SinkError>> Sink for SinkFromErr<S, E> {
    type SinkItem = S::SinkItem;

    type SinkError = E;

    closed spec fn received(&self) -> Seq<S::SinkItem> {
        self.sink.received()
    }

    closed spec fn flushed(&self) -> bool {
        self.sink.flushed()
    }

    closed spec fn closed(&self) -> bool {
        self.sink.closed()
    }

    closed spec fn inv(&self) -> bool {
        self.sink.inv()
    }

    fn start_send(&mut self, item: S::SinkItem) -> (r: Result<StartSend<S::SinkItem>, E>) {
        self.offer(item)
    }

    fn poll_complete(&mut self) -> (r: Poll<Result<(), E>>) {
        self.drive()
    }

    fn close(&mut self) -> (r: Poll<Result<(), E>>) {
        self.shutdown()
    }
}

} // verus!
