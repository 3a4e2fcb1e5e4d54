use claw_core::channel::BoundedQueue;

#[test]
fn send_recv_roundtrip() {
    let mut q = BoundedQueue::new(2);
    assert!(q.send_timeout(1u32, Some(10)).is_ok());
    assert!(q.send_timeout(2u32, Some(10)).is_ok());
    // full now
    assert_eq!(q.send_timeout(3u32, Some(10)), Err(3));
    assert_eq!(q.recv_timeout(Some(10)), Some(1));
    assert_eq!(q.recv_timeout(Some(10)), Some(2));
    assert_eq!(q.recv_timeout(Some(10)), None);
}

#[test]
fn queue_holds_at_least_one_item() {
    let mut q = BoundedQueue::new(0);
    assert!(q.is_empty());
    assert!(q.send_timeout("a", None).is_ok());
    assert!(q.is_full());
    assert_eq!(q.send_timeout("b", Some(0)), Err("b"));
}

#[test]
fn drain_keeps_the_order() {
    let mut q = BoundedQueue::new(4);
    for n in 1..5u8 {
        assert!(q.send_timeout(n, Some(0)).is_ok());
    }
    assert_eq!(q.recv_timeout(Some(0)), Some(1));
    assert_eq!(q.drain(), vec![2, 3, 4]);
    assert!(q.is_empty());
}

#[test]
fn a_queue_never_holds_more_than_its_capacity() {
    let mut q = BoundedQueue::new(3);
    let mut taken = 0;
    for n in 0..20u32 {
        let sent = q.send_timeout(n, Some(0)).is_ok();
        assert_eq!(sent, n < 3 + taken);
        if !sent {
            assert!(q.is_full());
            assert!(q.recv_timeout(Some(0)).is_some());
            assert!(q.send_timeout(n, Some(0)).is_ok());
            taken += 1;
        }
    }
    assert_eq!(q.drain(), vec![17, 18, 19]);
}
