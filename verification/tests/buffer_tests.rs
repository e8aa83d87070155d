use sinks::buffer::Buffer;
use sinks::poll::{Poll, StartSend};
use sinks::scripted::{FaultKind, ScriptedSink, SinkStep};
use sinks::sink::Sink;

#[test]
fn buffer_below_capacity_never_rejects() {
    // The inner sink would reject everything, but below capacity it is
    // never consulted.
    let inner = ScriptedSink::<u64>::new(
        vec![SinkStep::Reject, SinkStep::Reject, SinkStep::Reject],
        0,
    );
    let mut b = Buffer::new(inner, 3);
    for i in 0..3u64 {
        assert!(matches!(b.start_send(i), Ok(StartSend::Accepted)));
    }
}

#[test]
fn buffer_fifo_order_despite_backpressure() {
    // First drain attempt is refused; order must still be 1, 2, 3.
    let inner = ScriptedSink::<u64>::new(vec![SinkStep::Reject], 0);
    let mut b = Buffer::new(inner, 2);
    assert!(matches!(b.start_send(1), Ok(StartSend::Accepted)));
    assert!(matches!(b.start_send(2), Ok(StartSend::Accepted)));
    assert!(matches!(b.poll_complete(), Poll::Pending));
    assert!(matches!(b.poll_complete(), Poll::Ready(Ok(()))));
    assert!(matches!(b.start_send(3), Ok(StartSend::Accepted)));
    assert!(matches!(b.close(), Poll::Ready(Ok(()))));
    let inner = b.into_inner();
    assert_eq!(inner.into_items(), vec![1, 2, 3]);
}

#[test]
fn buffer_full_queue_flushes_one_then_accepts() {
    let inner = ScriptedSink::<u64>::accepting();
    let mut b = Buffer::new(inner, 1);
    assert!(matches!(b.start_send(10), Ok(StartSend::Accepted)));
    // Queue is full; the oldest item is pushed down to make room.
    assert!(matches!(b.start_send(20), Ok(StartSend::Accepted)));
    assert_eq!(b.get_ref().items().clone(), vec![10]);
    assert!(matches!(b.poll_complete(), Poll::Ready(Ok(()))));
    assert_eq!(b.into_inner().into_items(), vec![10, 20]);
}

#[test]
fn buffer_full_queue_rejects_when_inner_refuses() {
    let inner = ScriptedSink::<u64>::new(vec![SinkStep::Reject], 0);
    let mut b = Buffer::new(inner, 1);
    assert!(matches!(b.start_send(1), Ok(StartSend::Accepted)));
    match b.start_send(2) {
        Ok(StartSend::Rejected(it)) => assert_eq!(it, 2),
        _ => panic!("expected rejection"),
    }
}

#[test]
fn buffer_capacity_zero_passes_items_through() {
    let inner = ScriptedSink::<u64>::accepting();
    let mut b = Buffer::new(inner, 0);
    assert!(matches!(b.start_send(7), Ok(StartSend::Accepted)));
    assert_eq!(b.into_inner().into_items(), vec![7]);
}

#[test]
fn buffer_inner_error_is_surfaced_and_wedges() {
    let inner = ScriptedSink::<u64>::new(vec![SinkStep::Fail(FaultKind::Io)], 0);
    let mut b = Buffer::new(inner, 1);
    assert!(matches!(b.start_send(1), Ok(StartSend::Accepted)));
    match b.start_send(2) {
        Err(k) => assert_eq!(k, FaultKind::Io),
        _ => panic!("expected the inner fault"),
    }
    assert!(matches!(b.start_send(3), Ok(StartSend::Rejected(3))));
    assert!(matches!(b.poll_complete(), Poll::Pending));
}
