use synctools::rwlock::{
    read_acquire_action, write_acquire_action, ReadAction, RwLock, WriteAction,
};

#[test]
fn rwlock_readers_share_writers_exclude() {
    let mut l = RwLock::new(0u32);
    assert!(l.try_read());
    assert!(l.try_read());
    assert!(l.try_read());
    // Readers hold the lock: a writer cannot enter.
    assert!(!l.try_write());
    l.read_unlock();
    l.read_unlock();
    l.read_unlock();
    assert!(l.try_write());
    // A writer holds the lock: neither readers nor a second writer enter.
    assert!(!l.try_read());
    assert!(!l.try_write());
    l.write_unlock();
    assert!(l.try_read());
    l.read_unlock();
}

#[test]
fn rwlock_writer_preference_and_wake() {
    let mut l = RwLock::new(0u32);
    assert!(l.try_read());
    assert!(l.try_read());
    assert_eq!(l.state_word(), 4);
    assert!(!l.try_write());
    assert!(l.set_writer_waiting());
    assert_eq!(l.state_word(), 5);
    // New readers are barred while a writer waits.
    assert!(!l.try_read());
    let w0: usize = l.wake_word();
    l.read_unlock();
    assert_eq!(l.state_word(), 3);
    assert_eq!(l.wake_word(), w0);
    // The last reader to leave wakes the writer.
    l.read_unlock();
    assert_eq!(l.state_word(), 1);
    assert_eq!(l.wake_word(), w0.wrapping_add(1));
    assert!(l.try_write());
    assert_eq!(l.state_word(), usize::MAX);
    l.write_unlock();
    assert_eq!(l.state_word(), 0);
    assert_eq!(l.wake_word(), w0.wrapping_add(2));
}

#[test]
fn rwlock_balanced_writer_leaves_zero_for_readers() {
    // A writer that adds one and then subtracts one inside its critical
    // section: every read outside a write section observes zero.
    let mut l = RwLock::new(0i64);
    for _ in 0..100 {
        assert!(l.try_write());
        let v: i64 = *l.read_data();
        let _ = l.replace_data(v + 1);
        let v: i64 = *l.read_data();
        let _ = l.replace_data(v - 1);
        l.write_unlock();
        assert!(l.try_read());
        assert_eq!(*l.read_data(), 0);
        l.read_unlock();
    }
}

#[test]
fn rwlock_read_actions_follow_state() {
    assert_eq!(
        read_acquire_action(0),
        ReadAction::TryEnter { current: 0, desired: 2 }
    );
    assert_eq!(
        read_acquire_action(4),
        ReadAction::TryEnter { current: 4, desired: 6 }
    );
    assert_eq!(read_acquire_action(5), ReadAction::WaitChange { observed: 5 });
    assert_eq!(
        read_acquire_action(usize::MAX),
        ReadAction::WaitChange { observed: usize::MAX }
    );
}

#[test]
fn rwlock_write_actions_follow_state() {
    assert_eq!(write_acquire_action(0), WriteAction::TryLock { current: 0 });
    assert_eq!(write_acquire_action(1), WriteAction::TryLock { current: 1 });
    assert_eq!(
        write_acquire_action(4),
        WriteAction::SetWaitBit { current: 4, desired: 5 }
    );
    assert_eq!(write_acquire_action(5), WriteAction::WaitWake);
    assert_eq!(write_acquire_action(usize::MAX), WriteAction::WaitWake);
}

#[test]
fn rwlock_set_wait_bit_only_with_readers() {
    let mut l = RwLock::new(());
    // No readers: the writer takes the lock directly instead.
    assert!(!l.set_writer_waiting());
    assert_eq!(l.state_word(), 0);
    assert!(l.try_read());
    assert!(l.set_writer_waiting());
    // The bit cannot be set twice.
    assert!(!l.set_writer_waiting());
    assert_eq!(l.state_word(), 3);
    l.read_unlock();
    assert!(l.try_write());
    l.write_unlock();
}
