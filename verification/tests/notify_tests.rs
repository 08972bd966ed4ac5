use notify::NotifyOwned;

#[test]
fn new_state_is_empty_at_version_zero() {
    let n = NotifyOwned::new();
    assert_eq!(n.version(), 0);
    assert_eq!(n.live_count(), 0);
}

#[test]
fn broadcast_advances_version_by_one() {
    let mut n = NotifyOwned::new();
    assert_eq!(n.version(), 0);
    let _ = n.notify_all();
    assert_eq!(n.version(), 1);
    let _ = n.notify_all();
    assert_eq!(n.version(), 2);
}

#[test]
fn repeated_registration_keeps_one_slot() {
    let mut n = NotifyOwned::new();
    let mut w = n.wait();
    w.register(&mut n, 10);
    assert_eq!(n.live_count(), 1);
    w.register(&mut n, 11);
    assert_eq!(n.live_count(), 1);
    w.register(&mut n, 12);
    assert_eq!(n.live_count(), 1);
    w.dispose(&mut n);
}

#[test]
fn reregistration_overwrites_in_place() {
    let mut n = NotifyOwned::new();
    let mut w1 = n.wait();
    w1.register(&mut n, 1);
    w1.register(&mut n, 2);
    assert_eq!(n.live_count(), 1);
    let woken = n.notify_all();
    assert_eq!(woken, vec![2]);
    w1.dispose(&mut n);
}

#[test]
fn broadcast_wakes_two_waiters_once_each() {
    let mut n = NotifyOwned::new();
    let mut w1 = n.wait();
    let mut w2 = n.wait();
    w1.register(&mut n, 1);
    w2.register(&mut n, 2);
    let mut woken = n.notify_all();
    woken.sort();
    assert_eq!(woken, vec![1, 2]);
    assert_eq!(n.live_count(), 0);
    let woken_again = n.notify_all();
    assert_eq!(woken_again.len(), 0);
    w1.dispose(&mut n);
    w2.dispose(&mut n);
}

#[test]
fn broadcast_with_k_live_waiters_returns_k_tokens() {
    let mut n = NotifyOwned::new();
    let mut waiters = Vec::new();
    for t in 0..5u64 {
        let mut w = n.wait();
        w.register(&mut n, t);
        waiters.push(w);
    }
    assert_eq!(n.live_count(), 5);
    let mut woken = n.notify_all();
    woken.sort();
    assert_eq!(woken, vec![0, 1, 2, 3, 4]);
    assert_eq!(n.live_count(), 0);
    for w in waiters {
        w.dispose(&mut n);
    }
}

#[test]
fn dispose_of_live_registration_removes_its_slot() {
    let mut n = NotifyOwned::new();
    let mut w1 = n.wait();
    let mut w2 = n.wait();
    w1.register(&mut n, 1);
    w2.register(&mut n, 2);
    assert_eq!(n.live_count(), 2);
    w1.dispose(&mut n);
    assert_eq!(n.live_count(), 1);
    let woken = n.notify_all();
    assert_eq!(woken, vec![2]);
    w2.dispose(&mut n);
}

#[test]
fn dispose_of_stale_registration_leaves_table_unchanged() {
    let mut n = NotifyOwned::new();
    let mut w1 = n.wait();
    let mut w2 = n.wait();
    w1.register(&mut n, 1);
    let _ = n.notify_all();
    w2.register(&mut n, 2);
    assert_eq!(n.live_count(), 1);
    w1.dispose(&mut n);
    assert_eq!(n.live_count(), 1);
    let woken = n.notify_all();
    assert_eq!(woken, vec![2]);
    w2.dispose(&mut n);
}

#[test]
fn dispose_of_unregistered_waiter_is_a_no_op() {
    let mut n = NotifyOwned::new();
    let w = n.wait();
    let mut w2 = n.wait();
    w2.register(&mut n, 2);
    w.dispose(&mut n);
    assert_eq!(n.live_count(), 1);
    w2.dispose(&mut n);
    assert_eq!(n.live_count(), 0);
}

#[test]
fn stale_registration_recovers_with_a_fresh_slot() {
    let mut n = NotifyOwned::new();
    let mut w = n.wait();
    w.register(&mut n, 1);
    let _ = n.notify_all();
    assert_eq!(n.live_count(), 0);
    w.register(&mut n, 3);
    assert_eq!(n.live_count(), 1);
    let woken = n.notify_all();
    assert_eq!(woken, vec![3]);
    w.dispose(&mut n);
}

#[test]
fn repeated_create_and_dispose_keeps_capacity_bounded() {
    let mut n = NotifyOwned::new();
    for t in 0..10_000u64 {
        let mut w = n.wait();
        w.register(&mut n, t);
        assert!(n.capacity() >= n.live_count());
        w.dispose(&mut n);
    }
    assert_eq!(n.live_count(), 0);
    assert!(n.capacity() <= 4);
}

#[test]
fn broadcast_shrinks_an_oversized_table() {
    let mut n = NotifyOwned::new();
    let mut waiters = Vec::new();
    for t in 0..64u64 {
        let mut w = n.wait();
        w.register(&mut n, t);
        waiters.push(w);
    }
    assert!(n.capacity() >= 64);
    let mut woken = n.notify_all();
    woken.sort();
    assert_eq!(woken, (0..64u64).collect::<Vec<u64>>());
    let mut w1 = n.wait();
    let mut w2 = n.wait();
    w1.register(&mut n, 100);
    w2.register(&mut n, 101);
    let mut woken_small = n.notify_all();
    woken_small.sort();
    assert_eq!(woken_small, vec![100, 101]);
    assert!(n.capacity() <= 4);
    w1.dispose(&mut n);
    w2.dispose(&mut n);
    for w in waiters {
        w.dispose(&mut n);
    }
}
