//! The pull-based producer capability.

use vstd::prelude::*;
use crate::poll::Poll;

verus! {

/// A pull-based capability yielding a lazy sequence of items.
///
/// The specification view is the sequence of items the stream has yet to
/// yield (`future_items`) and whether it has signalled exhaustion
/// (`done`). Exhaustion is monotonic by contract: once `poll_next` has
/// yielded `None`, every later call yields `None` again, because a `Some`
/// result requires a non-empty `future_items` and `done` forces it empty.
pub trait Stream: Sized {
    type Item;

    /// The items this stream has yet to yield, in order.
    spec fn future_items(&self) -> Seq<Self::Item>;

    /// True once the stream has yielded `None`.
    spec fn done(&self) -> bool;

    /// Well-formedness of the stream's internal state.
    spec fn inv(&self) -> bool;

    /// Pull the next item. `Ready(Some(x))` yields the head of
    /// `future_items`; `Ready(None)` signals exhaustion and only comes once
    /// nothing is left; `Pending` changes nothing.
    fn poll_next(&mut self) -> (r: Poll<Option<Self::Item>>)
        requires
            old(self).inv(),
        ensures
            final(self).inv(),
            old(self).done() ==> final(self).done(),
            final(self).done() ==> final(self).future_items().len() == 0,
            match r {
                Poll::Ready(step) => match step {
                    Some(x) => !old(self).done()
                        && old(self).future_items().len() > 0
                        && x == old(self).future_items()[0]
                        && final(self).future_items() == old(self).future_items().skip(1),
                    None => old(self).future_items().len() == 0
                        && final(self).future_items().len() == 0
                        && final(self).done(),
                },
                Poll::Pending => !old(self).done()
                    && final(self).future_items() == old(self).future_items()
                    && final(self).done() == old(self).done(),
            },
    ;

    /// Report whether the stream has already signalled exhaustion.
    fn is_terminated(&self) -> (r: bool)
        ensures
            r == self.done(),
    ;
}

} // verus!
