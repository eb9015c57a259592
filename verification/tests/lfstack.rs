use synctools::lfstack::{LFStack, StackHead};

#[test]
fn lfstack_lifo_order() {
    let mut s = StackHead::new();
    s.push(1u64);
    s.push(2);
    s.push(3);
    assert_eq!(s.pop(), Some(3));
    assert_eq!(s.pop(), Some(2));
    s.push(4);
    assert_eq!(s.pop(), Some(4));
    assert_eq!(s.pop(), Some(1));
    assert_eq!(s.pop(), None);
    assert_eq!(s.pop(), None);
}

#[test]
fn lfstack_pop_on_empty_is_none() {
    let mut s: StackHead<i32> = StackHead::new();
    assert_eq!(s.pop(), None);
}

#[test]
fn lfstack_drain_returns_every_push_once() {
    // Two batches of distinct integers go in; popping everything must hand
    // each value back exactly once, and then the stack is empty.
    let n: usize = 100;
    let mut s = LFStack::new();
    for i in 0..n {
        s.get_mut().push(i);
    }
    for i in n..2 * n {
        s.get_mut().push(i);
    }
    let mut seen = vec![false; 2 * n];
    for _ in 0..2 * n {
        let v: usize = s.get_mut().pop().unwrap();
        assert!(!seen[v]);
        seen[v] = true;
    }
    assert!(seen.iter().all(|&b| b));
    assert_eq!(s.get_mut().pop(), None);
}

#[test]
fn lfstack_drain_releases_every_linked_value() {
    let mut s = StackHead::new();
    s.push(1u8);
    s.push(2);
    s.push(3);
    assert_eq!(s.len(), 3);
    s.drain();
    assert_eq!(s.len(), 0);
    assert_eq!(s.pop(), None);
}

#[test]
fn lfstack_push_pop_interleaved() {
    let mut s = LFStack::new();
    s.get_mut().push(10u32);
    s.get_mut().push(20);
    assert_eq!(s.get_mut().pop(), Some(20));
    s.get_mut().push(30);
    s.get_mut().push(40);
    assert_eq!(s.get_mut().pop(), Some(40));
    assert_eq!(s.get_mut().pop(), Some(30));
    assert_eq!(s.get_mut().pop(), Some(10));
    assert_eq!(s.get_mut().pop(), None);
}
