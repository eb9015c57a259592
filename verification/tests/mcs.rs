use synctools::mcs::{MCSLock, MCSNode};

#[test]
fn mcs_node_new_starts_unpublished() {
    let n = MCSNode::new(3);
    assert_eq!(n.id, 3);
    assert!(!n.published);
}

#[test]
fn mcs_uncontended_counter() {
    // A single thread repeatedly takes the lock and increments the payload:
    // the count at the end equals the number of critical sections.
    let rounds: u64 = 1000;
    let mut l = MCSLock::new(0u64);
    for _ in 0..rounds {
        let became = l.lock(MCSNode::new(1));
        assert!(became);
        let v: u64 = *l.read_data(1);
        let _ = l.replace_data(1, v + 1);
        l.unlock(1);
    }
    assert!(l.lock(MCSNode::new(1)));
    assert_eq!(*l.read_data(1), rounds);
    l.unlock(1);
}

#[test]
fn mcs_fifo_handoff_order() {
    // Three waiters arrive in the order 10, 20, 30; they become holder in
    // exactly that order.
    let mut l = MCSLock::new(());
    assert!(l.lock(MCSNode::new(10)));
    assert!(!l.lock(MCSNode::new(20)));
    assert!(!l.lock(MCSNode::new(30)));
    l.publish(20);
    l.publish(30);
    assert_eq!(l.holder_id(), Some(10));
    assert_eq!(l.queue_len(), 3);
    l.unlock(10);
    assert_eq!(l.holder_id(), Some(20));
    l.unlock(20);
    assert_eq!(l.holder_id(), Some(30));
    assert_eq!(l.queue_len(), 1);
    l.unlock(30);
    assert_eq!(l.holder_id(), None);
    assert_eq!(l.queue_len(), 0);
}

#[test]
fn mcs_release_without_successor_clears_tail() {
    let mut l = MCSLock::new(5u32);
    assert!(l.lock(MCSNode::new(7)));
    assert!(l.try_unlock(7));
    assert_eq!(l.holder_id(), None);
}

#[test]
fn mcs_release_with_successor_hands_off() {
    let mut l = MCSLock::new(5u32);
    assert!(l.lock(MCSNode::new(7)));
    assert!(!l.lock(MCSNode::new(8)));
    // A waiter has arrived: the tail compare-exchange fails and the holder
    // must wait for the successor's publication, then hand off.
    assert!(!l.try_unlock(7));
    l.publish(8);
    l.unlock_handoff(7);
    assert_eq!(l.holder_id(), Some(8));
    assert_eq!(*l.read_data(8), 5);
    l.unlock(8);
    assert_eq!(l.holder_id(), None);
}

#[test]
fn mcs_payload_moves_through_lock() {
    let mut l = MCSLock::new(String::from("before"));
    assert!(l.lock(MCSNode::new(1)));
    let old = l.replace_data(1, String::from("after"));
    assert_eq!(old, "before");
    assert_eq!(*l.read_data(1), "after");
    l.unlock(1);
}
