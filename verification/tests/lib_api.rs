use llsc::{Addr, ExclusivePtr, ExclusiveUsize, Ordering};

#[test]
fn lib_test_cas() {
    let val = Addr(4096);
    let eptr = ExclusivePtr::new(Addr(0));
    let ll = eptr.load_linked(Ordering::Relaxed);
    assert_eq!(eptr.load(Ordering::Relaxed), Addr(0));
    assert_eq!(ll.try_store_conditional(val, Ordering::Relaxed), true);
    assert_eq!(eptr.load(Ordering::Relaxed), Addr(4096));
}

#[test]
fn lib_test_cas_fail() {
    let val = Addr(4096);
    let val2 = Addr(8192);
    let eptr = ExclusivePtr::new(Addr(0));
    let ll = eptr.load_linked(Ordering::Relaxed);
    assert_eq!(eptr.load(Ordering::Relaxed), Addr(0));
    eptr.store_direct(val2, Ordering::Relaxed);
    assert_eq!(eptr.load(Ordering::Relaxed), Addr(8192));
    assert_eq!(ll.store_conditional(val, Ordering::Relaxed).is_some(), true);
    assert_eq!(eptr.load(Ordering::Relaxed), Addr(8192));
}

#[test]
fn lib_test_cas_fail_xchg() {
    let val = Addr(4096);
    let val2 = Addr(8192);
    let eptr = ExclusivePtr::new(Addr(0));
    let ll = eptr.load_linked(Ordering::Relaxed);
    assert_eq!(eptr.load(Ordering::Relaxed), Addr(0));
    assert_eq!(eptr.exchange_direct(val2, Ordering::Relaxed), Addr(0));
    assert_eq!(eptr.load(Ordering::Relaxed), Addr(8192));
    assert_eq!(ll.store_conditional(val, Ordering::Relaxed).is_some(), true);
    assert_eq!(eptr.load(Ordering::Relaxed), Addr(8192));
}

#[test]
fn lib_test_mt_cas() {
    let num_run: usize = 10000;
    let num_thread: usize = 4;
    let val = ExclusiveUsize::new(0);

    crossbeam::scope(|scope| {
        for _ in 0..num_thread {
            scope.spawn(|_| {
                for _ in 0..num_run {
                    let mut ll = val.load_linked(Ordering::Relaxed);
                    loop {
                        let next = ll.get() + 1;
                        match ll.store_conditional(next, Ordering::Relaxed) {
                            None => break,
                            Some(nll) => ll = nll,
                        }
                    }
                }
            });
        }
    })
    .unwrap();

    assert_eq!(val.load(Ordering::Relaxed), num_run * num_thread);
}

#[test]
fn lib_is_lock_free_reports_fallback() {
    assert_eq!(llsc::is_lock_free(), false);
}
