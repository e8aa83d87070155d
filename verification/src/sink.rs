//! The push-based consumer capability.

use vstd::prelude::*;
use crate::poll::{Poll, StartSend};

verus! {

/// The sequence a staging slot stands for: one item, or none.
pub open spec fn opt_seq<T>(o: Option<T>) -> Seq<T> {
    match o {
        Some(x) => seq![x],
        None => Seq::empty(),
    }
}

/// A push-based capability that accepts items one at a time with
/// backpressure.
///
/// The specification view of a sink is the sequence of items it has
/// accepted so far (`received`), whether all internally staged work has
/// been delivered (`flushed`), and whether it has been terminated
/// (`closed`).
///
/// Protocol: after a `Rejected` result the caller must drive
/// `poll_complete` before offering a new item; implementations are free to
/// keep rejecting until then. Every operation leaves the well-formedness
/// predicate `inv` intact, and no operation un-closes a closed sink.
pub trait Sink: Sized {
    type SinkItem;
    type SinkError;

    /// The items this sink has accepted so far, oldest first.
    spec fn received(&self) -> Seq<Self::SinkItem>;

    /// True when no accepted item is still staged inside this sink or any
    /// sink it wraps.
    spec fn flushed(&self) -> bool;

    /// True once the sink has been terminated by `close`.
    spec fn closed(&self) -> bool;

    /// Well-formedness of the sink's internal state.
    spec fn inv(&self) -> bool;

    /// Offer one item. `Accepted` appends the item to `received`;
    /// `Rejected` hands the very same item back and accepts nothing; an
    /// error accepts nothing.
    fn start_send(&mut self, item: Self::SinkItem) -> (r: Result<StartSend<Self::SinkItem>, Self::SinkError>)
        requires
            old(self).inv(),
            !old(self).closed(),
        ensures
            final(self).inv(),
            final(self).closed() == old(self).closed(),
            match r {
                Ok(StartSend::Accepted) => final(self).received() == old(self).received().push(item),
                Ok(StartSend::Rejected(it)) => it == item && final(self).received() == old(self).received(),
                Err(_) => final(self).received() == old(self).received(),
            },
    ;

    /// Drive internally staged work toward delivery. Never changes which
    /// items this sink counts as accepted; `Ready(Ok(()))` means everything
    /// accepted so far has been delivered.
    fn poll_complete(&mut self) -> (r: Poll<Result<(), Self::SinkError>>)
        requires
            old(self).inv(),
        ensures
            final(self).inv(),
            final(self).received() == old(self).received(),
            final(self).closed() == old(self).closed(),
            match r {
                Poll::Ready(res) => res is Ok ==> final(self).flushed(),
                Poll::Pending => true,
            },
    ;

    /// Flush, then terminate. `Ready(Ok(()))` means everything accepted has
    /// been delivered and the sink is closed for good.
    fn close(&mut self) -> (r: Poll<Result<(), Self::SinkError>>)
        requires
            old(self).inv(),
        ensures
            final(self).inv(),
            final(self).received() == old(self).received(),
            old(self).closed() ==> final(self).closed(),
            match r {
                Poll::Ready(res) => res is Ok ==> final(self).flushed() && final(self).closed(),
                Poll::Pending => true,
            },
    ;
}

} // verus!
