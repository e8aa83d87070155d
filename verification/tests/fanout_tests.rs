use sinks::fanout::Fanout;
use sinks::poll::{Poll, StartSend};
use sinks::scripted::{FaultKind, ScriptedSink, SinkStep};
use sinks::sink::Sink;

#[test]
fn fanout_delivers_equal_copies_in_order() {
    let a = ScriptedSink::<u64>::accepting();
    let b = ScriptedSink::<u64>::accepting();
    let mut f = Fanout::new(a, b);
    for i in [1u64, 2, 3] {
        assert!(matches!(f.start_send(i), Ok(StartSend::Accepted)));
    }
    assert!(matches!(f.poll_complete(), Poll::Ready(Ok(()))));
    let (a, b) = f.into_inner();
    assert_eq!(a.into_items(), vec![1, 2, 3]);
    assert_eq!(b.into_items(), vec![1, 2, 3]);
}

#[test]
fn fanout_retries_rejected_branch_before_new_item() {
    let a = ScriptedSink::<u64>::new(vec![SinkStep::Reject], 0);
    let b = ScriptedSink::<u64>::accepting();
    let mut f = Fanout::new(a, b);
    assert!(matches!(f.start_send(5), Ok(StartSend::Accepted)));
    // Branch A still holds the item: a new one is refused.
    assert!(matches!(f.start_send(6), Ok(StartSend::Rejected(6))));
    assert!(matches!(f.poll_complete(), Poll::Ready(Ok(()))));
    assert!(matches!(f.start_send(6), Ok(StartSend::Accepted)));
    assert!(matches!(f.poll_complete(), Poll::Ready(Ok(()))));
    let (a, b) = f.into_inner();
    assert_eq!(a.into_items(), vec![5, 6]);
    assert_eq!(b.into_items(), vec![5, 6]);
}

#[test]
fn fanout_error_on_a_stops_deliveries_to_b() {
    let a = ScriptedSink::<u64>::new(vec![SinkStep::Accept, SinkStep::Fail(FaultKind::Io)], 0);
    let b = ScriptedSink::<u64>::accepting();
    let mut f = Fanout::new(a, b);
    assert!(matches!(f.start_send(1), Ok(StartSend::Accepted)));
    match f.start_send(2) {
        Err(k) => assert_eq!(k, FaultKind::Io),
        _ => panic!("expected the branch fault"),
    }
    // The adapter is wedged: B receives no further items.
    assert!(matches!(f.start_send(3), Ok(StartSend::Rejected(3))));
    let (a, b) = f.into_inner();
    assert_eq!(a.into_items(), vec![1]);
    assert_eq!(b.into_items(), vec![1]);
}

#[test]
fn fanout_closes_both_branches() {
    let a = ScriptedSink::<u64>::accepting();
    let b = ScriptedSink::<u64>::accepting();
    let mut f = Fanout::new(a, b);
    assert!(matches!(f.start_send(4), Ok(StartSend::Accepted)));
    assert!(matches!(f.close(), Poll::Ready(Ok(()))));
}
