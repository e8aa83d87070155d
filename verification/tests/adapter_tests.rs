use sinks::from_err::{SinkFromErr, WrappedFault};
use sinks::map_err::{IoToApp, SinkMapErr};
use sinks::poll::{Poll, StartSend};
use sinks::scripted::{FaultKind, ScriptedSink, SinkStep};
use sinks::send_one::SendOne;
use sinks::sink::Sink;
use sinks::with::{DelayedIdentity, With};
use sinks::with_flat_map::{RepeatFn, WithFlatMap};

#[test]
fn map_err_turns_io_into_app_on_send() {
    // The wrapped sink alone fails with Io.
    let mut raw = ScriptedSink::<u64>::new(vec![SinkStep::Fail(FaultKind::Io)], 0);
    match raw.start_send(1) {
        Err(k) => assert_eq!(k, FaultKind::Io),
        _ => panic!("expected the raw fault"),
    }
    // Composed with the transform, the same send fails with App.
    let sink = ScriptedSink::<u64>::new(vec![SinkStep::Fail(FaultKind::Io)], 0);
    let mapped = SinkMapErr::new(sink, IoToApp);
    let mut op = SendOne::new(mapped, 1);
    match op.poll() {
        Poll::Ready(Err(k)) => assert_eq!(k, FaultKind::App),
        _ => panic!("expected the mapped fault"),
    }
}

#[test]
fn map_err_leaves_item_flow_unchanged() {
    let sink = ScriptedSink::<u64>::accepting();
    let mut mapped = SinkMapErr::new(sink, IoToApp);
    assert!(matches!(mapped.start_send(3), Ok(StartSend::Accepted)));
    assert!(matches!(mapped.poll_complete(), Poll::Ready(Ok(()))));
    assert_eq!(mapped.into_inner().into_items(), vec![3]);
}

#[test]
fn from_err_wraps_the_inner_fault() {
    let sink = ScriptedSink::<u64>::new(vec![SinkStep::Fail(FaultKind::App)], 0);
    let mut wrapped: SinkFromErr<ScriptedSink<u64>, WrappedFault> = SinkFromErr::new(sink);
    match wrapped.start_send(1) {
        Err(w) => assert_eq!(w, WrappedFault { kind: FaultKind::App }),
        _ => panic!("expected the wrapped fault"),
    }
}

#[test]
fn with_flat_map_expands_one_send_into_five_copies() {
    let sink = ScriptedSink::<u64>::accepting();
    let wfm = WithFlatMap::new(sink, RepeatFn { value: 42 });
    let mut op = SendOne::new(wfm, 5usize);
    match op.poll() {
        Poll::Ready(Ok(w)) => {
            assert_eq!(w.into_inner().into_items(), vec![42, 42, 42, 42, 42]);
        },
        _ => panic!("expected the send to complete"),
    }
}

#[test]
fn with_flat_map_rejects_while_an_expansion_drains() {
    let sink = ScriptedSink::<u64>::new(vec![SinkStep::Accept, SinkStep::Reject], 0);
    let mut wfm = WithFlatMap::new(sink, RepeatFn { value: 7 });
    assert!(matches!(wfm.start_send(2), Ok(StartSend::Accepted)));
    // The second copy was refused downstream; the drain is still active.
    assert!(matches!(wfm.poll_complete(), Poll::Pending));
    assert!(matches!(wfm.start_send(1), Ok(StartSend::Rejected(1))));
    assert!(matches!(wfm.poll_complete(), Poll::Ready(Ok(()))));
    assert_eq!(wfm.into_inner().into_items(), vec![7, 7]);
}

#[test]
fn with_resolves_the_transform_before_forwarding() {
    let sink = ScriptedSink::<u64>::accepting();
    let w = With::new(sink, DelayedIdentity { stalls: 1 });
    let mut op = SendOne::new(w, 9);
    // The transform future needs one extra cycle.
    assert!(matches!(op.poll(), Poll::Pending));
    match op.poll() {
        Poll::Ready(Ok(w)) => assert_eq!(w.into_inner().into_items(), vec![9]),
        _ => panic!("expected the send to complete"),
    }
}

#[test]
fn with_rejects_while_a_transform_is_in_flight() {
    let sink = ScriptedSink::<u64>::accepting();
    let mut w = With::new(sink, DelayedIdentity { stalls: 5 });
    assert!(matches!(w.start_send(1), Ok(StartSend::Accepted)));
    assert!(matches!(w.start_send(2), Ok(StartSend::Rejected(2))));
}
