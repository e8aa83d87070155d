//! Draining a stream into a growable container.

use vstd::prelude::*;
use crate::poll::Poll;
use crate::stream::Stream;

verus! {

/// A growable container, seen as the sequence of its elements: it can be
/// default-constructed empty and extended by one element at a time.
pub trait Accumulator: Sized {
    type Elem;

    /// The elements held so far, in insertion order.
    spec fn contents(&self) -> Seq<Self::Elem>;

    /// An empty container.
    fn fresh() -> (r: Self)
        ensures
            r.contents() == Seq::<Self::Elem>::empty(),
    ;

    /// Append one element.
    fn add_one(&mut self, x: Self::Elem)
        ensures
            final(self).contents() == old(self).contents().push(x),
    ;
}

impl<T> Accumulator for Vec<T> {
    type Elem = T;

    open spec fn contents(&self) -> Seq<T> {
        self@
    }

    fn fresh() -> (r: Self) {
        Vec::new()
    }

    fn add_one(&mut self, x: T) {
        self.push(x);
    }
}

/// A one-shot operation which collects all of the values of a stream
/// into a container, in arrival order.
///
/// Each poll pulls items until the stream either suspends or reports
/// exhaustion; on exhaustion the accumulated container is handed out and
/// the operation holds an empty one again.
pub struct Collect<St, C> {
    stream: St,
    collection: C,
}

impl<St: Stream, C: Accumulator<Elem = St::Item>> Collect<St, C> {
    /// The elements accumulated so far.
    pub closed spec fn collected(&self) -> Seq<St::Item> {
        self.collection.contents()
    }

    /// What the stream has yet to yield.
    pub closed spec fn remaining(&self) -> Seq<St::Item> {
        self.stream.future_items()
    }

    /// True once the stream has signalled exhaustion.
    pub closed spec fn exhausted(&self) -> bool {
        self.stream.done()
    }

    /// Well-formedness of the operation's state.
    pub closed spec fn wf(&self) -> bool {
        self.stream.inv()
    }

    /// Start collecting `stream` into an empty container.
    pub fn new(stream: St) -> (r: Self)
        requires
            stream.inv(),
        ensures
            r.wf(),
            r.collected() == Seq::<St::Item>::empty(),
            r.remaining() == stream.future_items(),
            r.exhausted() == stream.done(),
    {
        Collect { stream, collection: C::fresh() }
    }

    /// Take the accumulated container out, leaving an empty one behind.
    pub fn finish(&mut self) -> (r: C)
        requires
            old(self).wf(),
        ensures
            final(self).wf(),
            r.contents() == old(self).collected(),
            final(self).collected() == Seq::<St::Item>::empty(),
            final(self).remaining() == old(self).remaining(),
            final(self).exhausted() == old(self).exhausted(),
    {
        let mut out = C::fresh();
        core::mem::swap(&mut out, &mut self.collection);
        out
    }

    /// Report whether the underlying stream is already exhausted.
    pub fn is_terminated(&self) -> (r: bool)
        ensures
            r == self.exhausted(),
    {
        self.stream.is_terminated()
    }

    /// One attempt to finish collecting: pulls items until the stream
    /// suspends or ends. On exhaustion the container holds exactly what
    /// was already accumulated followed by everything the stream still
    /// had, in order.
    pub fn poll(&mut self) -> (r: Poll<C>)
        requires
            old(self).wf(),
        ensures
            final(self).wf(),
            match r {
                Poll::Ready(c) => c.contents() == old(self).collected() + old(self).remaining()
                    && final(self).exhausted()
                    && final(self).collected().len() == 0
                    && final(self).remaining().len() == 0,
                Poll::Pending => !final(self).exhausted()
                    && final(self).collected() + final(self).remaining() == old(self).collected()
                        + old(self).remaining(),
            },
    {
        loop
            invariant
                self.wf(),
                self.collected() + self.remaining() == old(self).collected() + old(self).remaining(),
            decreases self.remaining().len(),
        {
            let ghost c0 = self.collected();
            let ghost r0 = self.remaining();
            match self.stream.poll_next() {
                Poll::Ready(step) => match step {
                    Some(x) => {
                        self.collection.add_one(x);
                        proof {
                            assert(self.collected() + self.remaining() =~= c0 + r0);
                        }
                    },
                    None => {
                        proof {
                            assert(self.collected() + self.remaining() =~= self.collected());
                        }
                        let c = self.finish();
                        return Poll::Ready(c);
                    },
                },
                Poll::Pending => {
                    return Poll::Pending;
                },
            }
        }
    }
}

} // verus!
