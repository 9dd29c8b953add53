use tochat::channel::{BoundedQueue, CHANNEL_CAPACITY};

#[test]
fn thirty_three_sends_block_until_one_drain() {
    let mut q: BoundedQueue<String> = BoundedQueue::new(CHANNEL_CAPACITY);
    for i in 0..32 {
        assert!(q.try_send(format!("message {}", i)).is_ok());
    }
    assert_eq!(q.len(), 32);
    assert!(q.is_full());

    // The 33rd send is refused and nothing is dropped: the sender suspends.
    let refused = q.try_send(String::from("message 32"));
    assert_eq!(refused, Err(String::from("message 32")));
    assert_eq!(q.len(), 32);

    // Once the consumer drains one element, the same send is accepted.
    assert_eq!(q.recv(), Some(String::from("message 0")));
    assert!(!q.is_full());
    assert!(q.try_send(String::from("message 32")).is_ok());
    assert_eq!(q.len(), 32);
}

#[test]
fn queue_is_first_in_first_out() {
    let mut q: BoundedQueue<u64> = BoundedQueue::new(4);
    assert_eq!(q.recv(), None);
    assert!(q.try_send(1).is_ok());
    assert!(q.try_send(2).is_ok());
    assert!(q.try_send(3).is_ok());
    assert_eq!(q.recv(), Some(1));
    assert!(q.try_send(4).is_ok());
    assert_eq!(q.recv(), Some(2));
    assert_eq!(q.recv(), Some(3));
    assert_eq!(q.recv(), Some(4));
    assert_eq!(q.recv(), None);
}

#[test]
fn real_channel_backpressure_matches_the_model() {
    let (tx, mut rx) = tokio::sync::mpsc::channel::<String>(32);
    for i in 0..32 {
        tx.try_send(format!("message {}", i)).unwrap();
    }
    // The 33rd send does not complete while no consumer drains.
    match tx.try_send(String::from("message 32")) {
        Err(tokio::sync::mpsc::error::TrySendError::Full(v)) => {
            assert_eq!(v, String::from("message 32"));
        }
        _ => panic!("expected the bounded channel to be full"),
    }
    assert_eq!(rx.try_recv().unwrap(), String::from("message 0"));
    tx.try_send(String::from("message 32")).unwrap();
}
