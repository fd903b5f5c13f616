use llsc::codec::Addr;
use llsc::tagged::{ExclusiveIsize, ExclusivePtr, ExclusiveUsize};
use llsc::Ordering;

#[test]
fn exclusive_32_test_cas() {
    let val = Addr(4096);
    let eptr = ExclusivePtr::new(Addr(0));
    let ll = eptr.load_linked(Ordering::Relaxed);
    assert_eq!(eptr.load(Ordering::Relaxed), Addr(0));
    assert_eq!(ll.store_conditional(val, Ordering::Relaxed).is_none(), true);
    assert_eq!(eptr.load(Ordering::Relaxed), Addr(4096));
}

#[test]
fn exclusive_32_test_cas_fail() {
    let val = Addr(4096);
    let val2 = Addr(8192);
    let eptr = ExclusivePtr::new(Addr(0));
    let ll = eptr.load_linked(Ordering::Relaxed);
    assert_eq!(eptr.load(Ordering::Relaxed), Addr(0));
    eptr.store_direct(val2, Ordering::Relaxed);
    assert_eq!(eptr.load(Ordering::Relaxed), Addr(8192));
    assert_eq!(ll.store_conditional(val, Ordering::Relaxed).is_some(), true);
    assert_eq!(eptr.load(Ordering::Relaxed), Addr(8192));
}

#[test]
fn exclusive_32_test_cas_fail_xchg() {
    let val = Addr(4096);
    let val2 = Addr(8192);
    let eptr = ExclusivePtr::new(Addr(0));
    let ll = eptr.load_linked(Ordering::Relaxed);
    assert_eq!(eptr.load(Ordering::Relaxed), Addr(0));
    assert_eq!(eptr.exchange_direct(val2, Ordering::Relaxed), Addr(0));
    assert_eq!(eptr.load(Ordering::Relaxed), Addr(8192));
    assert_eq!(ll.store_conditional(val, Ordering::Relaxed).is_some(), true);
    assert_eq!(eptr.load(Ordering::Relaxed), Addr(8192));
}

// The concurrent increment also converges on the tagged backend: no
// lost updates across threads.
#[test]
fn tagged_mt_cas_converges() {
    let num_run: usize = 10000;
    let num_thread: usize = 4;
    let val = ExclusiveUsize::new(0);

    crossbeam::scope(|scope| {
        for _ in 0..num_thread {
            scope.spawn(|_| {
                for _ in 0..num_run {
                    let mut ll = val.load_linked(Ordering::Relaxed);
                    loop {
                        let next = ll.get() + 1;
                        match ll.store_conditional(next, Ordering::Relaxed) {
                            None => break,
                            Some(nll) => ll = nll,
                        }
                    }
                }
            });
        }
    })
    .unwrap();

    assert_eq!(val.load(Ordering::Relaxed), num_run * num_thread);
}

#[test]
fn tagged_uncontended_sc_succeeds() {
    let cell = ExclusiveUsize::new(5);
    let ll = cell.load_linked(Ordering::Relaxed);
    assert_eq!(ll.get(), 5);
    assert!(ll.store_conditional(7, Ordering::Relaxed).is_none());
    assert_eq!(cell.load(Ordering::Relaxed), 7);
}

// ABA closure on the tagged backend: the version tag moves on every
// store, so restoring the value bit for bit does not revive an old
// snapshot.
#[test]
fn tagged_aba_round_trip_fails() {
    let cell = ExclusiveUsize::new(1);
    let ll = cell.load_linked(Ordering::Relaxed);
    cell.store_direct(2, Ordering::Relaxed);
    cell.store_direct(3, Ordering::Relaxed);
    cell.store_direct(1, Ordering::Relaxed);
    assert_eq!(cell.load(Ordering::Relaxed), 1);
    assert!(ll.store_conditional(9, Ordering::Relaxed).is_some());
    assert_eq!(cell.load(Ordering::Relaxed), 1);
}

#[test]
fn tagged_other_sc_poisons_snapshot() {
    let cell = ExclusiveUsize::new(1);
    let older = cell.load_linked(Ordering::Relaxed);
    let newer = cell.load_linked(Ordering::Relaxed);
    assert!(newer.store_conditional(2, Ordering::Relaxed).is_none());
    cell.store_direct(1, Ordering::Relaxed);
    assert_eq!(cell.load(Ordering::Relaxed), 1);
    assert!(older.store_conditional(9, Ordering::Relaxed).is_some());
    assert_eq!(cell.load(Ordering::Relaxed), 1);
}

#[test]
fn tagged_failure_returns_fresh_snapshot() {
    let cell = ExclusiveUsize::new(5);
    let ll = cell.load_linked(Ordering::Relaxed);
    cell.store_direct(9, Ordering::Relaxed);
    let fresh = ll.store_conditional(6, Ordering::Relaxed).expect("must fail");
    assert_eq!(fresh.get(), 9);
    assert!(fresh.store_conditional(6, Ordering::Relaxed).is_none());
    assert_eq!(cell.load(Ordering::Relaxed), 6);
}

#[test]
fn tagged_exchange_matches_sequential_model() {
    let cell = ExclusiveIsize::new(-3);
    let writes: [isize; 5] = [10, -20, 0, 7, i32::MAX as isize];
    let mut expected_prev: isize = -3;
    for w in writes {
        assert_eq!(cell.exchange_direct(w, Ordering::Relaxed), expected_prev);
        expected_prev = w;
        assert_eq!(cell.load(Ordering::Relaxed), w);
    }
}

// Signed payloads round-trip through the half-word, including the ends
// of the representable range.
#[test]
fn tagged_isize_range_round_trip() {
    let cell = ExclusiveIsize::new(i32::MIN as isize);
    assert_eq!(cell.load(Ordering::Relaxed), i32::MIN as isize);
    assert_eq!(
        cell.exchange_direct(i32::MAX as isize, Ordering::Relaxed),
        i32::MIN as isize
    );
    assert_eq!(cell.load(Ordering::Relaxed), i32::MAX as isize);
}

// A store through the backend really reaches the shared atom: the value
// handed to store_conditional comes back out of load, not the value the
// snapshot held.
#[test]
fn tagged_sc_installs_through_cas() {
    let cell = ExclusiveUsize::new(u32::MAX as usize);
    let ll = cell.load_linked(Ordering::SeqCst);
    assert!(ll.try_store_conditional(0, Ordering::SeqCst));
    assert_eq!(cell.load(Ordering::SeqCst), 0);
}
