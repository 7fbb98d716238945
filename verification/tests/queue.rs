use flowcore::queue::{bounded, Error};
use flowcore::queue_debug::{bounded_with_debug, QUEUE_LEN};

#[test]
fn overwrite_drops_oldest() {
    let mut q = bounded::<u32>(3);
    q.send(1).unwrap();
    q.send(2).unwrap();
    q.send(3).unwrap();
    assert_eq!(q.size(), 3);
    q.send(4).unwrap();
    // the buffer never exceeds the capacity; the oldest item left
    assert_eq!(q.size(), 3);
    assert_eq!(q.recv().unwrap(), 2);
    assert_eq!(q.recv().unwrap(), 3);
    assert_eq!(q.recv().unwrap(), 4);
    let c = q.counters();
    // every accepted item was delivered or dropped
    assert_eq!(c.input, 4);
    assert_eq!(c.output, 3);
    assert_eq!(c.overwritten, 1);
    assert_eq!(c.input, c.output + c.overwritten + q.size() as u64);
}

#[test]
fn recv_on_empty_times_out() {
    let mut q = bounded::<u32>(2);
    assert!(matches!(q.recv(), Err(Error::Timeout)));
}

#[test]
fn terminated_send_returns_item() {
    let mut q = bounded::<u32>(2);
    q.terminate();
    match q.send(7) {
        Err(Error::Terminated(Some(v), None)) => assert_eq!(v, 7),
        _ => panic!("expected Terminated carrying the item"),
    }
    assert!(matches!(q.recv(), Err(Error::Terminated(None, None))));
}

#[test]
fn send_all_batch_too_large() {
    let mut q = bounded::<u32>(2);
    match q.send_all(vec![1, 2, 3]) {
        Err(Error::BatchTooLarge(Some(v))) => assert_eq!(v, vec![1, 2, 3]),
        _ => panic!("expected BatchTooLarge carrying the batch"),
    }
    assert_eq!(q.size(), 0);
}

#[test]
fn send_all_overwrites_in_order() {
    let mut q = bounded::<u32>(3);
    q.send(10).unwrap();
    q.send(11).unwrap();
    q.send_all(vec![12, 13]).unwrap();
    assert_eq!(q.size(), 3);
    let got = q.recv_n(10).unwrap();
    assert_eq!(got, vec![11, 12, 13]);
    let c = q.counters();
    assert_eq!((c.input, c.output, c.overwritten), (4, 3, 1));
}

#[test]
fn send_in_batch_chunks() {
    let mut q = bounded::<u32>(4);
    q.send_in_batch(vec![1, 2, 3, 4, 5], 2).unwrap();
    assert_eq!(q.size(), 4);
    assert_eq!(q.recv_n(4).unwrap(), vec![2, 3, 4, 5]);
}

#[test]
fn recv_n_drains_up_to_max() {
    let mut q = bounded::<u32>(5);
    q.send_all(vec![1, 2, 3]).unwrap();
    assert_eq!(q.recv_n(2).unwrap(), vec![1, 2]);
    assert_eq!(q.recv_n(2).unwrap(), vec![3]);
    assert!(matches!(q.recv_n(2), Err(Error::Timeout)));
}

#[test]
fn debug_sender_mirrors_when_enabled() {
    let mut ds = bounded_with_debug::<u32>(4, "test-queue");
    ds.send(5).unwrap();
    // disabled: nothing on the tap
    assert!(matches!(ds.debug.recv(), Err(Error::Timeout)));

    ds.set_debug_enabled(true);
    ds.send(42).unwrap();
    let mirrored = ds.debug.recv().unwrap();
    assert_eq!(mirrored.as_str(), "42");

    assert_eq!(ds.size(), 2);
    assert_eq!(ds.sender.recv().unwrap(), 5);
    assert_eq!(ds.sender.recv().unwrap(), 42);
}

#[test]
fn debug_sender_send_all_mirrors_chunks() {
    let mut ds = bounded_with_debug::<u32>(8, "bulk");
    ds.set_debug_enabled(true);
    ds.send_all(vec![1, 2, 3]).unwrap();
    assert_eq!(ds.size(), 3);
    let mirrored = ds.debug.recv_n(QUEUE_LEN).unwrap();
    assert_eq!(mirrored.len(), 3);
    assert_eq!(mirrored[0].as_str(), "1");
    ds.send_in_batch(vec![4, 5], 1).unwrap();
    assert_eq!(ds.size(), 5);
}
