use create_your_own_mutex::mutex::Mutex;

#[test]
fn it_works_across_a_single_thread() {
    let mut data: Mutex<u64> = Mutex::new(0);

    let g = data.lock(0).unwrap();
    assert_eq!(*data.get(&g), 0);
    assert!(data.release(g).is_none());

    // a second task and the first each add one, in turn
    let g = data.lock(1).unwrap();
    let v: u64 = *data.get(&g);
    data.set(&g, v + 1);
    assert!(data.release(g).is_none());

    let g = data.lock(0).unwrap();
    let v: u64 = *data.get(&g);
    data.set(&g, v + 1);
    assert!(data.release(g).is_none());

    let g = data.lock(0).unwrap();
    assert_eq!(*data.get(&g), 2);
    let _ = data.release(g);
}

#[test]
fn it_does_not_lock_with_fast_writes_across_multiple_threads() {
    let mut count: Mutex<u64> = Mutex::new(0);
    let mut remaining: Vec<u64> = vec![100; 10];

    // all ten tasks ask at once; the first is granted, the rest queue up
    let first = count.lock(0).unwrap();
    for t in 1..10u64 {
        assert!(count.lock(t).is_none());
    }

    // each task adds one per turn, releases, and asks again until done
    let mut current: Option<_> = Some(first);
    while let Some(g) = current {
        let t: u64 = g.task();
        let v: u64 = *count.get(&g);
        count.set(&g, v + 1);
        remaining[t as usize] -= 1;
        let more: bool = remaining[t as usize] > 0;
        current = count.release(g);
        if more {
            if let Some(g2) = count.lock(t) {
                current = Some(g2);
            }
        }
    }

    let g = count.lock(0).unwrap();
    assert_eq!(*count.get(&g), 1000);
    let _ = count.release(g);
}

#[test]
fn no_second_guard_while_held() {
    let mut m: Mutex<u64> = Mutex::new(0);
    let g = m.lock(1).unwrap();
    // while one guard is live, no request yields another guard
    assert!(m.lock(2).is_none());
    assert!(m.lock(3).is_none());
    let _ = m.release(g);
}

#[test]
fn fifo_handoff_follows_request_order() {
    let mut m: Mutex<u64> = Mutex::new(0);
    let g = m.lock(10).unwrap();
    assert!(m.lock(11).is_none());
    assert!(m.lock(12).is_none());
    assert!(m.lock(13).is_none());

    // the permit is handed over in exactly the order of the requests
    let g1 = m.release(g).unwrap();
    assert_eq!(g1.task(), 11);
    let g2 = m.release(g1).unwrap();
    assert_eq!(g2.task(), 12);
    let g3 = m.release(g2).unwrap();
    assert_eq!(g3.task(), 13);
    assert!(m.release(g3).is_none());
}

#[test]
fn release_after_fault_keeps_lock_usable() {
    let mut m: Mutex<u64> = Mutex::new(0);
    let g = m.lock(1).unwrap();
    assert!(m.lock(2).is_none());

    // the holder aborts mid-update: it leaves a half-finished value behind
    // but still goes through the one release path — no poisoned state
    m.set(&g, 41);
    let next = m.release(g).unwrap();

    // the waiting task is served and sees the partial value
    assert_eq!(next.task(), 2);
    assert_eq!(*m.get(&next), 41);
    assert!(m.release(next).is_none());

    // and a fresh request still succeeds at once
    let g = m.lock(3).unwrap();
    let _ = m.release(g);
}

#[test]
fn uncontended_lock_grants_immediately() {
    let mut m: Mutex<u64> = Mutex::new(7);
    // no contention: the very first request returns a guard on the spot
    let g = m.lock(42).unwrap();
    assert_eq!(g.task(), 42);
    assert_eq!(*m.get(&g), 7);
    assert!(m.release(g).is_none());
    // the lock is free again, so the next request is granted at once too
    let g = m.lock(43).unwrap();
    let _ = m.release(g);
}

#[test]
fn two_tasks_sharing_one_counter() {
    let mut count: Mutex<u64> = Mutex::new(0);
    let mut remaining: Vec<u64> = vec![100; 2];

    let first = count.lock(0).unwrap();
    assert!(count.lock(1).is_none());

    let mut current: Option<_> = Some(first);
    while let Some(g) = current {
        let t: u64 = g.task();
        let v: u64 = *count.get(&g);
        count.set(&g, v + 1);
        remaining[t as usize] -= 1;
        let more: bool = remaining[t as usize] > 0;
        current = count.release(g);
        if more {
            if let Some(g2) = count.lock(t) {
                current = Some(g2);
            }
        }
    }

    let g = count.lock(0).unwrap();
    assert_eq!(*count.get(&g), 200);
    let _ = count.release(g);
}
