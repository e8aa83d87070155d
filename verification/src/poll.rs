//! The suspension signal shared by every non-blocking operation.

use vstd::prelude::*;

verus! {

/// The outcome of one non-blocking attempt to make progress: either a
/// finished value, or a request to be polled again once the awaited
/// resource is ready.
pub enum Poll<T> {
    Ready(T),
    Pending,
}

/// The answer a sink gives to `start_send`: the item was taken, or the sink
/// is applying backpressure and hands the item back unchanged.
pub enum StartSend<T> {
    Accepted,
    Rejected(T),
}

} // verus!
