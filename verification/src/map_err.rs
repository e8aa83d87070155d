//! Remapping a sink's error domain with a one-shot function.

use vstd::prelude::*;
use crate::poll::{Poll, StartSend};
use crate::sink::Sink;
use crate::scripted::FaultKind;

verus! {

/// A one-shot error transform: consumed the first time an error has to
/// be converted.
pub trait ErrorMapper: Sized {
    type SourceError;

    type TargetError;

    /// The value the transform produces for each source error.
    spec fn spec_map(&self, e: Self::SourceError) -> Self::TargetError;

    /// Convert one error, consuming the transform.
    fn apply(self, e: Self::SourceError) -> (r: Self::TargetError)
        ensures
            r == self.spec_map(e),
    ;
}

/// Turns the `Io` fault into the `App` fault, leaving `App` as it is.
pub struct IoToApp;

impl ErrorMapper for IoToApp {
    type SourceError = FaultKind;

    type TargetError = FaultKind;

    open spec fn spec_map(&self, e: FaultKind) -> FaultKind {
        match e {
            FaultKind::Io => FaultKind::App,
            FaultKind::App => FaultKind::App,
        }
    }

    fn apply(self, e: FaultKind) -> (r: FaultKind) {
        match e {
            FaultKind::Io => FaultKind::App,
            FaultKind::App => FaultKind::App,
        }
    }
}

/// Forwards every operation to the inner sink unchanged and applies a
/// one-shot transform to the first error that surfaces; the transform's
/// result becomes the adapter's error. Item flow and acceptance are
/// untouched: what this sink has accepted is exactly what the inner sink
/// has accepted. After the transform has been spent the adapter wedges:
/// it rejects every later item and never again reports readiness.
pub struct SinkMapErr<S: Sink, F: ErrorMapper<SourceError = S::SinkError>> {
    sink: S,
    f: Option<F>,
}

impl<S: Sink, F: ErrorMapper<SourceError = S::SinkError>> SinkMapErr<S, F> {
    /// The inner sink.
    pub closed spec fn spec_inner(&self) -> S {
        self.sink
    }

    /// True once an error has passed through and spent the transform.
    pub closed spec fn spent(&self) -> bool {
        self.f is None
    }

    /// Wrap `sink`, remapping its first error through `f`.
    pub fn new(sink: S, f: F) -> (r: Self)
        requires
            sink.inv(),
        ensures
            r.inv(),
            !r.spent(),
            r.received() == sink.received(),
            r.flushed() == sink.flushed(),
            r.closed() == sink.closed(),
            r.spec_inner() == sink,
            r.spec_mapper() == f,
    {
        SinkMapErr { sink, f: Some(f) }
    }

    /// A read-only view of the inner sink.
    pub fn get_ref(&self) -> (r: &S)
        ensures
            *r == self.spec_inner(),
    {
        &self.sink
    }

    /// Consume the adapter, handing back the inner sink.
    pub fn into_inner(self) -> (r: S)
        ensures
            r == self.spec_inner(),
    {
        self.sink
    }

    /// The transform, while it is still unspent.
    pub closed spec fn spec_mapper(&self) -> F {
        self.f->0
    }

    /// Offer one item. Item flow is the inner sink's own; an error that
    /// surfaces is the transform applied to the inner sink's error, and
    /// spends the transform.
    pub fn offer(&mut self, item: S::SinkItem) -> (r: Result<
        StartSend<S::SinkItem>,
        F::TargetError,
    >)
        requires
            old(self).inv(),
            !old(self).closed(),
        ensures
            final(self).inv(),
            final(self).closed() == old(self).closed(),
            match r {
                Ok(StartSend::Accepted) => final(self).received() == old(self).received().push(
                    item,
                ),
                Ok(StartSend::Rejected(it)) => it == item && final(self).received() == old(
                    self,
                ).received(),
                Err(_) => final(self).received() == old(self).received(),
            },
            old(self).spent() ==> (r matches Ok(StartSend::Rejected(_)))
                && final(self).spec_inner() == old(self).spec_inner(),
            !(r matches Err(_)) ==> final(self).spent() == old(self).spent()
                && final(self).spec_mapper() == old(self).spec_mapper(),
            (r matches Ok(StartSend::Accepted)) ==> final(self).spec_inner().received() == old(
                self,
            ).spec_inner().received().push(item),
            !(r matches Ok(StartSend::Accepted)) ==> final(self).spec_inner().received() == old(
                self,
            ).spec_inner().received(),
            (r matches Err(_)) ==> !old(self).spent() && final(self).spent() && (exists|e:
                S::SinkError|
                r == Err::<StartSend<S::SinkItem>, F::TargetError>(
                    old(self).spec_mapper().spec_map(e),
                )),
    {
        if self.f.is_none() {
            return Ok(StartSend::Rejected(item));
        }
        match self.sink.start_send(item) {
            Ok(step) => Ok(step),
            Err(e) => {
                let m = self.f.take().unwrap();
                let ghost e0 = e;
                let mapped = m.apply(e);
                proof {
                    assert(mapped == old(self).spec_mapper().spec_map(e0));
                }
                Err(mapped)
            },
        }
    }

    /// Drive the inner sink's completion, remapping a surfaced error
    /// through the one-shot transform. Once the transform is spent the
    /// adapter stays suspended and the inner sink is left untouched.
    pub fn drive(&mut self) -> (r: Poll<Result<(), F::TargetError>>)
        requires
            old(self).inv(),
        ensures
            final(self).inv(),
            final(self).received() == old(self).received(),
            final(self).closed() == old(self).closed(),
            final(self).spec_inner().received() == old(self).spec_inner().received(),
            old(self).spent() ==> r is Pending
                && final(self).spec_inner() == old(self).spec_inner(),
            !(r matches Poll::Ready(Err(_))) ==> final(self).spent() == old(self).spent()
                && final(self).spec_mapper() == old(self).spec_mapper(),
            (r matches Poll::Ready(Err(_))) ==> !old(self).spent() && final(self).spent() && (
            exists|e: S::SinkError|
                r == Poll::Ready(Err::<(), F::TargetError>(old(self).spec_mapper().spec_map(e)))),
            match r {
                Poll::Ready(res) => res is Ok ==> final(self).flushed() && !final(self).spent()
                    && final(self).spec_inner().flushed(),
                Poll::Pending => true,
            },
    {
        if self.f.is_none() {
            return Poll::Pending;
        }
        match self.sink.poll_complete() {
            Poll::Ready(res) => match res {
                Ok(()) => Poll::Ready(Ok(())),
                Err(e) => {
                    let m = self.f.take().unwrap();
                    let ghost e0 = e;
                    let mapped = m.apply(e);
                    proof {
                        assert(mapped == old(self).spec_mapper().spec_map(e0));
                    }
                    Poll::Ready(Err(mapped))
                },
            },
            Poll::Pending => Poll::Pending,
        }
    }

    /// Flush, then close the inner sink, remapping a surfaced error
    /// through the one-shot transform. Once the transform is spent the
    /// adapter stays suspended and the inner sink is left untouched.
    pub fn shutdown(&mut self) -> (r: Poll<Result<(), F::TargetError>>)
        requires
            old(self).inv(),
        ensures
            final(self).inv(),
            final(self).received() == old(self).received(),
            old(self).closed() ==> final(self).closed(),
            final(self).spec_inner().received() == old(self).spec_inner().received(),
            old(self).spent() ==> r is Pending
                && final(self).spec_inner() == old(self).spec_inner(),
            !(r matches Poll::Ready(Err(_))) ==> final(self).spent() == old(self).spent()
                && final(self).spec_mapper() == old(self).spec_mapper(),
            (r matches Poll::Ready(Err(_))) ==> !old(self).spent() && final(self).spent() && (
            exists|e: S::SinkError|
                r == Poll::Ready(Err::<(), F::TargetError>(old(self).spec_mapper().spec_map(e)))),
            match r {
                Poll::Ready(res) => res is Ok ==> final(self).flushed() && final(self).closed()
                    && !final(self).spent() && final(self).spec_inner().flushed()
                    && final(self).spec_inner().closed(),
                Poll::Pending => true,
            },
    {
        if self.f.is_none() {
            return Poll::Pending;
        }
        match self.sink.close() {
            Poll::Ready(res) => match res {
                Ok(()) => Poll::Ready(Ok(())),
                Err(e) => {
                    let m = self.f.take().unwrap();
                    let ghost e0 = e;
                    let mapped = m.apply(e);
                    proof {
                        assert(mapped == old(self).spec_mapper().spec_map(e0));
                    }
                    Poll::Ready(Err(mapped))
                },
            },
            Poll::Pending => Poll::Pending,
        }
    }
}

/// The adapter is transparent for items: what it counts as accepted is
/// exactly what the inner sink counts as accepted, it is flushed exactly
/// when its transform is unspent and the inner sink is flushed, and it
/// is closed exactly when the inner sink is.
pub proof fn lemma_map_err_transparent<S: Sink, F: ErrorMapper<SourceError = S::SinkError>>(
    m: &SinkMapErr<S, F>,
)
    ensures
        m.received() == m.spec_inner().received(),
        m.flushed() == (!m.spent() && m.spec_inner().flushed()),
        m.closed() == m.spec_inner().closed(),
{
}

impl<S: Sink, F: ErrorMapper<SourceError = S::SinkError>> Sink for SinkMapErr<S, F> {
    type SinkItem = S::SinkItem;

    type SinkError = F::TargetError;

    closed spec fn received(&self) -> Seq<S::SinkItem> {
        self.sink.received()
    }

    closed spec fn flushed(&self) -> bool {
        self.f is Some && self.sink.flushed()
    }

    closed spec fn closed(&self) -> bool {
        self.sink.closed()
    }

    closed spec fn inv(&self) -> bool {
        self.sink.inv()
    }

    fn start_send(&mut self, item: S::SinkItem) -> (r: Result<StartSend<S::SinkItem>, F::TargetError>) {
        self.offer(item)
    }

    fn poll_complete(&mut self) -> (r: Poll<Result<(), F::TargetError>>) {
        self.drive()
    }

    fn close(&mut self) -> (r: Poll<Result<(), F::TargetError>>) {
        self.shutdown()
    }
}

} // verus!
