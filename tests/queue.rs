use line_relay::queue::{BoundedQueue, Dequeue};

#[test]
fn full_queue_hands_item_back() {
    let mut q: BoundedQueue<u32> = BoundedQueue::new(2);
    assert_eq!(q.try_push(1), Ok(()));
    assert_eq!(q.try_push(2), Ok(()));
    assert!(q.is_full());
    assert_eq!(q.try_push(3), Err(3));
    assert_eq!(q.len(), 2);
    assert_eq!(q.capacity(), 2);
    assert_eq!(q.try_pop(), Dequeue::Item(1));
    assert_eq!(q.try_push(3), Ok(()));
    assert_eq!(q.try_pop(), Dequeue::Item(2));
    assert_eq!(q.try_pop(), Dequeue::Item(3));
}

#[test]
fn empty_open_queue_waits() {
    let mut q: BoundedQueue<u32> = BoundedQueue::new(1);
    assert_eq!(q.try_pop(), Dequeue::Wait);
    assert!(!q.is_closed());
}

#[test]
fn closed_queue_drains_then_finishes() {
    let mut q: BoundedQueue<u32> = BoundedQueue::new(4);
    assert_eq!(q.try_push(7), Ok(()));
    assert_eq!(q.try_push(8), Ok(()));
    q.close();
    assert!(q.is_closed());
    assert_eq!(q.try_push(9), Err(9));
    assert_eq!(q.try_pop(), Dequeue::Item(7));
    assert_eq!(q.try_pop(), Dequeue::Item(8));
    assert_eq!(q.try_pop(), Dequeue::Finished);
}

#[test]
fn length_never_exceeds_capacity() {
    let mut q: BoundedQueue<u32> = BoundedQueue::new(32);
    let mut refused = 0;
    for i in 0..100u32 {
        if let Err(back) = q.try_push(i) {
            assert_eq!(back, i);
            refused += 1;
        }
        assert!(q.len() <= 32);
    }
    assert_eq!(refused, 68);
}
