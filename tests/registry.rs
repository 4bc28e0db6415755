use libaiofut::record::AIO;
use libaiofut::registry::AIONotifier;

fn record(id: u64, data: &[u8]) -> AIO<Vec<u8>, u64> {
    AIO::new(id, data.to_vec(), id * 10)
}

#[test]
fn result_is_stored_until_polled() {
    let mut n: AIONotifier<u32, Vec<u8>, u64> = AIONotifier::new();
    n.register_notify(record(1, b"abc"));
    assert!(n.can_finish(1, 3));
    assert_eq!(n.finish(1, 3), None);
    assert_eq!(n.poll(1, 7), Some(Ok((3usize, b"abc".to_vec()))));
    assert!(!n.contains(1));
    assert_eq!(n.len(), 0);
}

#[test]
fn pending_completion_hands_back_waker() {
    let mut n: AIONotifier<u32, Vec<u8>, u64> = AIONotifier::new();
    n.register_notify(record(4, b"xyz"));
    assert_eq!(n.poll(4, 11), None);
    assert_eq!(n.poll(4, 12), None);
    assert_eq!(n.finish(4, 2), Some(12));
    assert_eq!(n.poll(4, 13), Some(Ok((2usize, b"xyz".to_vec()))));
    assert_eq!(n.len(), 0);
}

#[test]
fn negative_result_is_errno() {
    let mut n: AIONotifier<u32, Vec<u8>, u64> = AIONotifier::new();
    n.register_notify(record(2, b"data"));
    assert_eq!(n.poll(2, 1), None);
    assert_eq!(n.finish(2, -9), Some(1));
    assert_eq!(n.poll(2, 1), Some(Err(9)));
}

#[test]
fn zero_length_completes_with_zero() {
    let mut n: AIONotifier<u32, Vec<u8>, u64> = AIONotifier::new();
    n.register_notify(record(3, b""));
    n.finish(3, 0);
    assert_eq!(n.poll(3, 0), Some(Ok((0usize, Vec::new()))));
}

#[test]
fn drop_before_completion_keeps_entry() {
    let mut n: AIONotifier<u32, Vec<u8>, u64> = AIONotifier::new();
    n.register_notify(record(5, b"keep"));
    assert_eq!(n.poll(5, 1), None);
    n.dropped(5);
    assert!(n.contains(5));
    assert!(n.can_finish(5, 4));
    assert_eq!(n.finish(5, 4), None);
    assert!(!n.contains(5));
}

#[test]
fn drop_after_completion_discards() {
    let mut n: AIONotifier<u32, Vec<u8>, u64> = AIONotifier::new();
    n.register_notify(record(6, b"gone"));
    n.finish(6, 4);
    assert!(!n.can_finish(6, 4));
    n.dropped(6);
    assert!(!n.contains(6));
    n.dropped(6);
    assert_eq!(n.len(), 0);
}

#[test]
fn ten_writes_five_dropped() {
    let mut n: AIONotifier<u32, Vec<u8>, u64> = AIONotifier::new();
    for id in 0..10u64 {
        n.register_notify(record(id, b"hello"));
    }
    for id in 0..10u64 {
        assert_eq!(n.poll(id, id as u32), None);
    }
    for id in 0..5u64 {
        n.dropped(id);
    }
    for id in (0..10u64).rev() {
        let w = n.finish(id, 5);
        if id < 5 {
            assert_eq!(w, None);
        } else {
            assert_eq!(w, Some(id as u32));
        }
    }
    assert_eq!(n.len(), 5);
    for id in 5..10u64 {
        assert_eq!(n.poll(id, 0), Some(Ok((5usize, b"hello".to_vec()))));
    }
    assert_eq!(n.len(), 0);
}

#[test]
fn out_of_range_result_is_refused() {
    let mut n: AIONotifier<u32, Vec<u8>, u64> = AIONotifier::new();
    n.register_notify(record(8, b""));
    assert!(!n.can_finish(8, i64::MIN));
    assert!(!n.can_finish(9, 0));
}

#[test]
fn failure_resolves_every_waiting_handle() {
    let mut n: AIONotifier<u32, Vec<u8>, u64> = AIONotifier::new();
    n.register_notify(record(1, b"a"));
    n.register_notify(record(2, b"b"));
    n.register_notify(record(3, b"c"));
    n.register_notify(record(4, b"d"));
    assert_eq!(n.poll(2, 20), None);
    n.dropped(3);
    n.finish(4, 1);
    let mut out = n.fail_all(5);
    out.sort_by_key(|x| x.0);
    assert_eq!(out.len(), 3);
    assert_eq!((out[0].0, out[0].1, out[0].2.id), (1, None, 1));
    assert_eq!((out[1].0, out[1].1, out[1].2.id), (2, Some(20), 2));
    assert_eq!((out[2].0, out[2].1, out[2].2.data.clone()), (3, None, b"c".to_vec()));
    assert_eq!(n.failed_with(), Some(5));
    assert_eq!(n.len(), 3);
    assert!(!n.contains(3));
    assert_eq!(n.poll(1, 0), Some(Err(5)));
    assert_eq!(n.poll(2, 0), Some(Err(5)));
    assert_eq!(n.poll(4, 0), Some(Ok((1usize, b"d".to_vec()))));
}

#[test]
fn registration_after_failure_resolves_at_once() {
    let mut n: AIONotifier<u32, Vec<u8>, u64> = AIONotifier::new();
    assert!(n.fail_all(110).is_empty());
    n.register_notify(record(9, b"late"));
    assert!(!n.can_finish(9, 4));
    assert_eq!(n.poll(9, 0), Some(Err(110)));
    assert_eq!(n.len(), 0);
}
