use sinks::flush::Flush;
use sinks::poll::Poll;
use sinks::scripted::{FaultKind, ScriptedSink, SeqStream, SinkStep};
use sinks::send_all::SendAll;
use sinks::send_one::SendOne;
use sinks::stream::Stream;

#[test]
fn flush_waits_until_the_sink_reports_readiness() {
    let sink = ScriptedSink::<u64>::new(vec![], 2);
    let mut f = Flush::new(sink);
    assert!(matches!(f.poll(), Poll::Pending));
    assert!(!f.is_done());
    assert!(matches!(f.poll(), Poll::Pending));
    match f.poll() {
        Poll::Ready(Ok(_)) => {},
        _ => panic!("expected readiness on the third poll"),
    }
    assert!(f.is_done());
}

#[test]
fn send_one_rejected_once_takes_two_polls_and_delivers_once() {
    let sink = ScriptedSink::<u64>::new(vec![SinkStep::Reject], 1);
    let mut op = SendOne::new(sink, 5);
    // First cycle: the sink refuses; the item stays pending.
    assert!(matches!(op.poll(), Poll::Pending));
    assert!(op.is_item_pending());
    // Second cycle: the item is accepted; the operation is now flushing.
    assert!(matches!(op.poll(), Poll::Pending));
    assert!(!op.is_item_pending());
    match op.poll() {
        Poll::Ready(Ok(s)) => assert_eq!(s.into_items(), vec![5]),
        _ => panic!("expected completion with the sink returned"),
    }
    assert!(op.is_done());
}

#[test]
fn send_one_completes_in_one_poll_without_backpressure() {
    let sink = ScriptedSink::<u64>::accepting();
    let mut op = SendOne::new(sink, 8);
    match op.poll() {
        Poll::Ready(Ok(s)) => assert_eq!(s.into_items(), vec![8]),
        _ => panic!("expected immediate completion"),
    }
}

#[test]
fn send_one_surfaces_the_sink_fault() {
    let sink = ScriptedSink::<u64>::new(vec![SinkStep::Fail(FaultKind::Io)], 0);
    let mut op = SendOne::new(sink, 8);
    match op.poll() {
        Poll::Ready(Err(k)) => assert_eq!(k, FaultKind::Io),
        _ => panic!("expected the fault"),
    }
    assert!(op.is_done());
}

#[test]
fn send_all_delivers_flushes_and_closes() {
    let sink = ScriptedSink::<u64>::new(vec![], 1);
    let stream = SeqStream::new(vec![1, 2, 3]);
    let mut op = SendAll::new(sink, stream);
    // The tail flush needs one extra cycle.
    assert!(matches!(op.poll(), Poll::Pending));
    match op.poll() {
        Poll::Ready(Ok((s, st))) => {
            assert_eq!(s.into_items(), vec![1, 2, 3]);
            assert!(st.is_terminated());
        },
        _ => panic!("expected completion with the pair returned"),
    }
    assert!(op.is_done());
}

#[test]
fn send_all_respects_backpressure_without_losing_items() {
    let sink = ScriptedSink::<u64>::new(vec![SinkStep::Accept, SinkStep::Reject], 0);
    let stream = SeqStream::new(vec![1, 2]);
    let mut op = SendAll::new(sink, stream);
    assert!(matches!(op.poll(), Poll::Pending));
    match op.poll() {
        Poll::Ready(Ok((s, _st))) => assert_eq!(s.into_items(), vec![1, 2]),
        _ => panic!("expected completion after the retry"),
    }
}

#[test]
fn send_all_on_empty_stream_delivers_nothing_and_closes() {
    let sink = ScriptedSink::<u64>::accepting();
    let stream = SeqStream::new(vec![]);
    let mut op = SendAll::new(sink, stream);
    match op.poll() {
        Poll::Ready(Ok((s, st))) => {
            assert!(st.is_terminated());
            assert_eq!(s.into_items(), vec![]);
        },
        _ => panic!("expected direct flush-then-close"),
    }
}

#[test]
fn send_all_surfaces_the_sink_fault() {
    let sink = ScriptedSink::<u64>::new(vec![SinkStep::Fail(FaultKind::App)], 0);
    let stream = SeqStream::new(vec![1, 2]);
    let mut op = SendAll::new(sink, stream);
    match op.poll() {
        Poll::Ready(Err(k)) => assert_eq!(k, FaultKind::App),
        _ => panic!("expected the fault"),
    }
    assert!(op.is_done());
}

#[test]
fn send_all_waits_while_the_stream_stalls() {
    let sink = ScriptedSink::<u64>::accepting();
    let stream = SeqStream::with_stalls(vec![4], 1);
    let mut op = SendAll::new(sink, stream);
    assert!(matches!(op.poll(), Poll::Pending));
    match op.poll() {
        Poll::Ready(Ok((s, _st))) => assert_eq!(s.into_items(), vec![4]),
        _ => panic!("expected completion after the stall"),
    }
}
