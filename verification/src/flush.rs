//! A one-shot operation that drives a sink until it reports readiness.

use vstd::prelude::*;
use crate::poll::Poll;
use crate::sink::Sink;

verus! {

/// Drives `poll_complete` on an owned sink until it reports readiness,
/// then hands the sink back. One-shot: once it has completed (or failed)
/// it is consumed and must not be polled again.
pub struct Flush<S: Sink> {
    sink: Option<S>,
    init: Ghost<Seq<S::SinkItem>>,
}

impl<S: Sink> Flush<S> {
    /// True once the operation has completed or failed.
    pub closed spec fn done(&self) -> bool {
        self.sink is None
    }

    /// What the sink had accepted when the operation started.
    pub closed spec fn init_received(&self) -> Seq<S::SinkItem> {
        self.init@
    }

    /// Well-formedness of the operation's state.
    pub closed spec fn wf(&self) -> bool {
        !self.done() ==> {
            &&& self.sink->0.inv()
            &&& self.sink->0.received() == self.init@
        }
    }

    /// Start flushing `sink`.
    pub fn new(sink: S) -> (r: Self)
        requires
            sink.inv(),
        ensures
            r.wf(),
            !r.done(),
            r.init_received() == sink.received(),
    {
        Flush { init: Ghost(sink.received()), sink: Some(sink) }
    }

    /// Report whether the operation is already consumed.
    pub fn is_done(&self) -> (r: bool)
        ensures
            r == self.done(),
    {
        self.sink.is_none()
    }

    /// One attempt to finish flushing. On readiness the sink is returned
    /// with everything it ever accepted delivered; an error is terminal.
    pub fn poll(&mut self) -> (r: Poll<Result<S, S::SinkError>>)
        requires
            old(self).wf(),
            !old(self).done(),
        ensures
            final(self).wf(),
            match r {
                Poll::Ready(res) => final(self).done() && match res {
                    Ok(s) => s.inv() && s.flushed() && s.received() == old(self).init_received(),
                    Err(_) => true,
                },
                Poll::Pending => !final(self).done()
                    && final(self).init_received() == old(self).init_received(),
            },
    {
        let mut s = self.sink.take().unwrap();
        match s.poll_complete() {
            Poll::Ready(res) => match res {
                Ok(()) => Poll::Ready(Ok(s)),
                Err(e) => Poll::Ready(Err(e)),
            },
            Poll::Pending => {
                self.sink = Some(s);
                Poll::Pending
            },
        }
    }
}

} // verus!
