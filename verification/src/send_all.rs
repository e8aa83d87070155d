//! A one-shot operation that drains a whole stream into a sink.

use vstd::prelude::*;
use crate::poll::{Poll, StartSend};
use crate::sink::{opt_seq, Sink};
use crate::stream::Stream;

verus! {

/// The progress state of a `SendAll` operation.
#[derive(Clone, Copy, PartialEq, Eq, Structural, Debug)]
pub enum SendAllPhase {
    Draining,
    FlushingTail,
    Closing,
    Done,
}

/// Pulls every item out of a stream and delivers it into a sink, in
/// order, subject to the sink's backpressure; once the stream is
/// exhausted, flushes the sink, closes it, and hands back the pair.
///
/// An item the sink rejects is kept in a staging slot and offered again
/// on the next poll, so nothing is dropped or reordered. A sink error is
/// terminal: items already accepted stay accepted, nothing is retried or
/// rolled back. One-shot: completion or an error consumes the operation.
pub struct SendAll<S: Sink, St: Stream<Item = S::SinkItem>> {
    sink: Option<S>,
    stream: Option<St>,
    buffered: Option<S::SinkItem>,
    phase: SendAllPhase,
    init: Ghost<Seq<S::SinkItem>>,
    total: Ghost<Seq<S::SinkItem>>,
}

impl<S: Sink, St: Stream<Item = S::SinkItem>> SendAll<S, St> {
    /// True once the operation has completed or failed.
    pub closed spec fn done(&self) -> bool {
        self.phase is Done
    }

    /// What the sink had accepted when the operation started.
    pub closed spec fn init_received(&self) -> Seq<S::SinkItem> {
        self.init@
    }

    /// What the stream had left to yield when the operation started.
    pub closed spec fn planned(&self) -> Seq<S::SinkItem> {
        self.total@
    }

    /// Well-formedness of the operation's state.
    pub closed spec fn wf(&self) -> bool {
        !self.done() ==> {
            &&& self.sink is Some
            &&& self.stream is Some
            &&& self.sink->0.inv()
            &&& self.stream->0.inv()
            &&& self.phase is Draining ==> {
                &&& !self.sink->0.closed()
                &&& self.init@ + self.total@ == self.sink->0.received() + opt_seq(self.buffered)
                    + self.stream->0.future_items()
            }
            &&& (self.phase is FlushingTail || self.phase is Closing) ==> {
                &&& self.buffered is None
                &&& self.stream->0.done()
                &&& self.stream->0.future_items().len() == 0
                &&& self.sink->0.received() == self.init@ + self.total@
            }
        }
    }

    /// Start draining `stream` into `sink`.
    pub fn new(sink: S, stream: St) -> (r: Self)
        requires
            sink.inv(),
            stream.inv(),
            !sink.closed(),
        ensures
            r.wf(),
            !r.done(),
            r.init_received() == sink.received(),
            r.planned() == stream.future_items(),
    {
        let r = SendAll {
            init: Ghost(sink.received()),
            total: Ghost(stream.future_items()),
            sink: Some(sink),
            stream: Some(stream),
            buffered: None,
            phase: SendAllPhase::Draining,
        };
        proof {
            assert(r.init@ + r.total@ =~= r.sink->0.received() + opt_seq(r.buffered)
                + r.stream->0.future_items());
        }
        r
    }

    /// Report whether the operation is already consumed.
    pub fn is_done(&self) -> (r: bool)
        ensures
            r == self.done(),
    {
        matches!(self.phase, SendAllPhase::Done)
    }

    /// One attempt to make progress. On readiness the sink has accepted
    /// exactly the stream's items after what it already held, is flushed
    /// and closed, and the exhausted stream comes back with it; an error
    /// is terminal.
    pub fn poll(&mut self) -> (r: Poll<Result<(S, St), S::SinkError>>)
        requires
            old(self).wf(),
            !old(self).done(),
        ensures
            final(self).wf(),
            match r {
                Poll::Ready(res) => final(self).done() && match res {
                    Ok(p) => p.0.inv() && p.1.inv() && p.0.flushed() && p.0.closed()
                        && p.1.done() && p.1.future_items().len() == 0
                        && p.0.received() == old(self).init_received() + old(self).planned(),
                    Err(_) => true,
                },
                Poll::Pending => !final(self).done()
                    && final(self).init_received() == old(self).init_received()
                    && final(self).planned() == old(self).planned(),
            },
    {
        let mut s = self.sink.take().unwrap();
        let mut st = self.stream.take().unwrap();
        if matches!(self.phase, SendAllPhase::Draining) {
            if self.buffered.is_some() {
                let it = self.buffered.take().unwrap();
                match s.start_send(it) {
                    Ok(StartSend::Accepted) => {
                        proof {
                            assert(s.received() + opt_seq(self.buffered) + st.future_items()
                                =~= old(self).sink->0.received() + opt_seq(old(self).buffered)
                                    + st.future_items());
                        }
                    },
                    Ok(StartSend::Rejected(it2)) => {
                        self.buffered = Some(it2);
                        match s.poll_complete() {
                            Poll::Ready(res) => match res {
                                Ok(()) => {},
                                Err(e) => {
                                    self.phase = SendAllPhase::Done;
                                    return Poll::Ready(Err(e));
                                },
                            },
                            Poll::Pending => {},
                        }
                        self.sink = Some(s);
                        self.stream = Some(st);
                        return Poll::Pending;
                    },
                    Err(e) => {
                        self.phase = SendAllPhase::Done;
                        return Poll::Ready(Err(e));
                    },
                }
            }
            loop
                invariant_except_break
                    s.inv(),
                    st.inv(),
                    !s.closed(),
                    self.buffered is None,
                    self.phase is Draining,
                    self.init@ == old(self).init@,
                    self.total@ == old(self).total@,
                    self.init@ + self.total@ == s.received() + st.future_items(),
                ensures
                    s.inv(),
                    st.inv(),
                    self.buffered is None,
                    self.phase is FlushingTail,
                    self.init@ == old(self).init@,
                    self.total@ == old(self).total@,
                    st.done(),
                    st.future_items().len() == 0,
                    s.received() == self.init@ + self.total@,
                decreases st.future_items().len(),
            {
                let ghost inv_recv = s.received();
                let ghost inv_items = st.future_items();
                match st.poll_next() {
                    Poll::Ready(step) => match step {
                        Some(x) => {
                            match s.start_send(x) {
                                Ok(StartSend::Accepted) => {
                                    proof {
                                        assert(s.received() + st.future_items()
                                            =~= inv_recv + inv_items);
                                    }
                                },
                                Ok(StartSend::Rejected(x2)) => {
                                    self.buffered = Some(x2);
                                    proof {
                                        assert(s.received() + opt_seq(self.buffered) + st.future_items()
                                            =~= inv_recv + inv_items);
                                    }
                                    match s.poll_complete() {
                                        Poll::Ready(res) => match res {
                                            Ok(()) => {},
                                            Err(e) => {
                                                self.phase = SendAllPhase::Done;
                                                return Poll::Ready(Err(e));
                                            },
                                        },
                                        Poll::Pending => {},
                                    }
                                    self.sink = Some(s);
                                    self.stream = Some(st);
                                    return Poll::Pending;
                                },
                                Err(e) => {
                                    self.phase = SendAllPhase::Done;
                                    return Poll::Ready(Err(e));
                                },
                            }
                        },
                        None => {
                            self.phase = SendAllPhase::FlushingTail;
                            proof {
                                assert(s.received() =~= s.received() + st.future_items());
                                assert(s.received() =~= self.init@ + self.total@);
                            }
                            break;
                        },
                    },
                    Poll::Pending => {
                        self.sink = Some(s);
                        self.stream = Some(st);
                        return Poll::Pending;
                    },
                }
            }
        }
        if matches!(self.phase, SendAllPhase::FlushingTail) {
            match s.poll_complete() {
                Poll::Ready(res) => match res {
                    Ok(()) => {
                        self.phase = SendAllPhase::Closing;
                    },
                    Err(e) => {
                        self.phase = SendAllPhase::Done;
                        return Poll::Ready(Err(e));
                    },
                },
                Poll::Pending => {
                    self.sink = Some(s);
                    self.stream = Some(st);
                    return Poll::Pending;
                },
            }
        }
        if matches!(self.phase, SendAllPhase::Closing) {
            match s.close() {
                Poll::Ready(res) => match res {
                    Ok(()) => {
                        self.phase = SendAllPhase::Done;
                        return Poll::Ready(Ok((s, st)));
                    },
                    Err(e) => {
                        self.phase = SendAllPhase::Done;
                        return Poll::Ready(Err(e));
                    },
                },
                Poll::Pending => {
                    self.sink = Some(s);
                    self.stream = Some(st);
                    return Poll::Pending;
                },
            }
        }
        proof {
            assert(false);
        }
        vstd::pervasive::unreached()
    }
}

} // verus!
