use sinks::collect::Collect;
use sinks::poll::Poll;
use sinks::scripted::SeqStream;

#[test]
fn collect_gathers_all_items_in_order() {
    let stream = SeqStream::new(vec![1u64, 2, 3]);
    let mut op: Collect<SeqStream<u64>, Vec<u64>> = Collect::new(stream);
    assert!(!op.is_terminated());
    match op.poll() {
        Poll::Ready(c) => assert_eq!(c, vec![1, 2, 3]),
        Poll::Pending => panic!("expected completion"),
    }
    assert!(op.is_terminated());
}

#[test]
fn collect_over_empty_stream_yields_empty_container() {
    let stream = SeqStream::new(vec![]);
    let mut op: Collect<SeqStream<u64>, Vec<u64>> = Collect::new(stream);
    match op.poll() {
        Poll::Ready(c) => assert_eq!(c, Vec::<u64>::new()),
        Poll::Pending => panic!("expected completion"),
    }
}

#[test]
fn collect_suspends_while_the_stream_stalls() {
    let stream = SeqStream::with_stalls(vec![9u64], 1);
    let mut op: Collect<SeqStream<u64>, Vec<u64>> = Collect::new(stream);
    assert!(matches!(op.poll(), Poll::Pending));
    match op.poll() {
        Poll::Ready(c) => assert_eq!(c, vec![9]),
        Poll::Pending => panic!("expected completion after the stall"),
    }
}

#[test]
fn finish_takes_the_container_and_leaves_an_empty_one() {
    let stream = SeqStream::new(vec![1u64, 2]);
    let mut op: Collect<SeqStream<u64>, Vec<u64>> = Collect::new(stream);
    match op.poll() {
        Poll::Ready(c) => assert_eq!(c, vec![1, 2]),
        Poll::Pending => panic!("expected completion"),
    }
    // The container was already taken on completion.
    assert_eq!(op.finish(), Vec::<u64>::new());
}
