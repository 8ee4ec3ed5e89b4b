use rusty::shared::{allocate, deallocate, in_use, release, reserve, settle};
use rusty::{AllocError, CEILING};
use std::sync::atomic::AtomicUsize;

const MIB: usize = 1024 * 1024;

#[test]
fn shared_rejection_boundary() {
    let counter = AtomicUsize::new(0);
    assert_eq!(allocate(&counter, 64 * MIB, || Some(1u8)), Ok(1u8));
    assert_eq!(in_use(&counter), 64 * MIB);
    assert_eq!(allocate(&counter, 65 * MIB, || Some(2u8)), Err(AllocError::CapacityExceeded));
    assert_eq!(in_use(&counter), 64 * MIB);
}

#[test]
fn shared_oversized_request_never_changes_the_count() {
    let counter = AtomicUsize::new(0);
    assert_eq!(reserve(&counter, CEILING + 1), Err(AllocError::CapacityExceeded));
    assert_eq!(reserve(&counter, usize::MAX), Err(AllocError::CapacityExceeded));
    assert_eq!(in_use(&counter), 0);
    assert_eq!(reserve(&counter, CEILING), Ok(()));
    assert_eq!(in_use(&counter), CEILING);
    assert_eq!(reserve(&counter, 1), Err(AllocError::CapacityExceeded));
    assert_eq!(in_use(&counter), CEILING);
}

#[test]
fn shared_underlying_failure_rolls_the_count_back() {
    let counter = AtomicUsize::new(0);
    assert_eq!(allocate(&counter, 10 * MIB, || Some(())), Ok(()));
    let failed: Result<(), AllocError> = allocate(&counter, 20 * MIB, || None);
    assert_eq!(failed, Err(AllocError::UnderlyingAllocatorFailure));
    assert_eq!(in_use(&counter), 10 * MIB);
}

#[test]
fn shared_reserve_settle_release() {
    let counter = AtomicUsize::new(0);
    assert_eq!(reserve(&counter, 6 * MIB), Ok(()));
    assert_eq!(settle(&counter, 6 * MIB, Some(9u64)), Ok(9u64));
    assert_eq!(in_use(&counter), 6 * MIB);
    assert_eq!(reserve(&counter, 2 * MIB), Ok(()));
    let none: Option<u64> = None;
    assert_eq!(settle(&counter, 2 * MIB, none), Err(AllocError::UnderlyingAllocatorFailure));
    assert_eq!(in_use(&counter), 6 * MIB);
    release(&counter, 6 * MIB);
    assert_eq!(in_use(&counter), 0);
}

#[test]
fn shared_delegate_runs_after_the_bytes_are_booked() {
    let counter = AtomicUsize::new(0);
    let seen = allocate(&counter, 3 * MIB, || Some(in_use(&counter)));
    assert_eq!(seen, Ok(3 * MIB));
    let refused = allocate(&counter, CEILING, || Some(in_use(&counter)));
    assert_eq!(refused, Err(AllocError::CapacityExceeded));
    assert_eq!(in_use(&counter), 3 * MIB);
}

#[test]
fn shared_count_drops_after_the_memory_is_freed() {
    let counter = AtomicUsize::new(0);
    assert_eq!(allocate(&counter, 3 * MIB, || Some(())), Ok(()));
    let mut seen = 0;
    deallocate(&counter, 3 * MIB, || seen = in_use(&counter));
    assert_eq!(seen, 3 * MIB);
    assert_eq!(in_use(&counter), 0);
}

#[test]
fn shared_round_trips_restore_the_count() {
    let counter = AtomicUsize::new(0);
    assert_eq!(allocate(&counter, 17, || Some(())), Ok(()));
    for size in [1usize, 4096, 64 * MIB, CEILING - 17, CEILING, CEILING + 1, 0] {
        if allocate(&counter, size, || Some(())).is_ok() {
            deallocate(&counter, size, || ());
        }
        assert_eq!(in_use(&counter), 17);
    }
}

#[test]
fn shared_equal_shares_fill_the_ceiling() {
    let parts: usize = 8;
    let counter = AtomicUsize::new(0);
    let mut surviving: usize = 0;
    for _ in 0..parts {
        let r = allocate(&counter, CEILING / parts, || Some(CEILING / parts));
        assert_eq!(r, Ok(CEILING / parts));
        surviving += r.unwrap();
    }
    assert_eq!(surviving, CEILING);
    assert_eq!(in_use(&counter), CEILING);
}

#[test]
fn allocation_that_arrives_during_another_sees_its_bytes() {
    let counter = AtomicUsize::new(0);
    let outer = allocate(&counter, 64 * MIB, || {
        let inner = allocate(&counter, 65 * MIB, || Some(()));
        assert_eq!(inner, Err(AllocError::CapacityExceeded));
        assert_eq!(in_use(&counter), 64 * MIB);
        let inner = allocate(&counter, 64 * MIB, || Some(()));
        assert_eq!(inner, Ok(()));
        Some(())
    });
    assert_eq!(outer, Ok(()));
    assert_eq!(in_use(&counter), CEILING);
}

#[test]
fn failure_during_another_allocation_leaves_the_other_bytes_booked() {
    let counter = AtomicUsize::new(0);
    let outer: Result<(), AllocError> = allocate(&counter, 10 * MIB, || {
        assert_eq!(allocate(&counter, 20 * MIB, || Some(())), Ok(()));
        None
    });
    assert_eq!(outer, Err(AllocError::UnderlyingAllocatorFailure));
    assert_eq!(in_use(&counter), 20 * MIB);
    deallocate(&counter, 20 * MIB, || {
        assert_eq!(allocate(&counter, 108 * MIB, || Some(())), Ok(()));
        assert_eq!(allocate(&counter, 1, || Some(())), Err(AllocError::CapacityExceeded));
    });
    assert_eq!(in_use(&counter), 108 * MIB);
}

#[test]
fn shared_count_is_the_sum_of_surviving_allocations() {
    let counter = AtomicUsize::new(0);
    let mut surviving: Vec<usize> = Vec::new();
    let mut refused = 0;
    for round in 0..2_000usize {
        let size = (round % 7 + 1) * 5 * MIB;
        match allocate(&counter, size, || Some(())) {
            Ok(()) => surviving.push(size),
            Err(error) => {
                assert_eq!(error, AllocError::CapacityExceeded);
                refused += 1;
            }
        }
        if round % 3 == 0 {
            if let Some(oldest) = surviving.first().copied() {
                surviving.remove(0);
                deallocate(&counter, oldest, || ());
            }
        }
        assert!(in_use(&counter) <= CEILING);
        assert_eq!(in_use(&counter), surviving.iter().sum::<usize>());
    }
    assert!(refused > 0);
    assert!(!surviving.is_empty());
}
