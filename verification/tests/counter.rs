use rusty::ceiling::{admission_after_add, overshoots};
use rusty::{AllocError, ByteCounter, CEILING};
use std::cell::Cell;

const MIB: usize = 1024 * 1024;

#[test]
fn ceiling_is_128_mib() {
    assert_eq!(CEILING, 128 * MIB);
    assert_eq!(CEILING, 134_217_728);
}

#[test]
fn new_counter_holds_nothing() {
    let counter = ByteCounter::new();
    assert_eq!(counter.in_use(), 0);
}

#[test]
fn rejection_boundary() {
    let mut counter = ByteCounter::new();
    let first = counter.allocate(64 * MIB, || Some(1u8));
    assert_eq!(first, Ok(1u8));
    assert_eq!(counter.in_use(), 64 * MIB);
    let second = counter.allocate(65 * MIB, || Some(2u8));
    assert_eq!(second, Err(AllocError::CapacityExceeded));
    assert_eq!(counter.in_use(), 64 * MIB);
}

#[test]
fn request_of_exactly_the_ceiling_is_admitted() {
    let mut counter = ByteCounter::new();
    assert_eq!(counter.allocate(CEILING, || Some(())), Ok(()));
    assert_eq!(counter.in_use(), CEILING);
    assert_eq!(counter.allocate(1, || Some(())), Err(AllocError::CapacityExceeded));
    assert_eq!(counter.in_use(), CEILING);
    assert_eq!(counter.allocate(0, || Some(())), Ok(()));
    assert_eq!(counter.in_use(), CEILING);
}

#[test]
fn oversized_request_never_changes_the_count() {
    let mut counter = ByteCounter::new();
    assert_eq!(counter.reserve(CEILING + 1), Err(AllocError::CapacityExceeded));
    assert_eq!(counter.in_use(), 0);
    assert_eq!(counter.reserve(usize::MAX), Err(AllocError::CapacityExceeded));
    assert_eq!(counter.in_use(), 0);
    assert_eq!(counter.reserve(3 * MIB), Ok(()));
    assert_eq!(counter.allocate(CEILING + 1, || Some(())), Err(AllocError::CapacityExceeded));
    assert_eq!(counter.allocate(usize::MAX, || Some(())), Err(AllocError::CapacityExceeded));
    assert_eq!(counter.in_use(), 3 * MIB);
}

#[test]
fn refused_request_does_not_reach_the_underlying_allocator() {
    let asked = Cell::new(0u32);
    let mut counter = ByteCounter::new();
    let r = counter.allocate(CEILING + 1, || {
        asked.set(asked.get() + 1);
        Some(())
    });
    assert_eq!(r, Err(AllocError::CapacityExceeded));
    assert_eq!(asked.get(), 0);
    let r = counter.allocate(CEILING, || {
        asked.set(asked.get() + 1);
        Some(())
    });
    assert_eq!(r, Ok(()));
    assert_eq!(asked.get(), 1);
    let r = counter.allocate(1, || {
        asked.set(asked.get() + 1);
        Some(())
    });
    assert_eq!(r, Err(AllocError::CapacityExceeded));
    assert_eq!(asked.get(), 1);
}

#[test]
fn underlying_failure_rolls_the_count_back() {
    let mut counter = ByteCounter::new();
    assert_eq!(counter.allocate(10 * MIB, || Some(7u32)), Ok(7u32));
    let failed: Result<u32, AllocError> = counter.allocate(20 * MIB, || None);
    assert_eq!(failed, Err(AllocError::UnderlyingAllocatorFailure));
    assert_eq!(counter.in_use(), 10 * MIB);
}

#[test]
fn reserve_then_settle_is_an_allocation() {
    let mut counter = ByteCounter::new();
    assert_eq!(counter.reserve(5 * MIB), Ok(()));
    assert_eq!(counter.in_use(), 5 * MIB);
    assert_eq!(counter.settle(5 * MIB, Some("memory")), Ok("memory"));
    assert_eq!(counter.in_use(), 5 * MIB);
    assert_eq!(counter.reserve(2 * MIB), Ok(()));
    assert_eq!(counter.in_use(), 7 * MIB);
    let none: Option<&str> = None;
    assert_eq!(counter.settle(2 * MIB, none), Err(AllocError::UnderlyingAllocatorFailure));
    assert_eq!(counter.in_use(), 5 * MIB);
}

#[test]
fn release_subtracts_the_size() {
    let mut counter = ByteCounter::new();
    assert_eq!(counter.reserve(9 * MIB), Ok(()));
    counter.release(4 * MIB);
    assert_eq!(counter.in_use(), 5 * MIB);
    counter.release(5 * MIB);
    assert_eq!(counter.in_use(), 0);
}

#[test]
fn deallocate_frees_then_subtracts() {
    let freed = Cell::new(false);
    let mut counter = ByteCounter::new();
    assert_eq!(counter.allocate(8 * MIB, || Some(())), Ok(()));
    counter.deallocate(8 * MIB, || freed.set(true));
    assert!(freed.get());
    assert_eq!(counter.in_use(), 0);
}

#[test]
fn round_trips_restore_the_count() {
    let mut counter = ByteCounter::new();
    assert_eq!(counter.allocate(17, || Some(())), Ok(()));
    let before = counter.in_use();
    let sizes = [1usize, 4096, 64 * MIB, CEILING - 17, CEILING, CEILING + 1, 0, 12345];
    for size in sizes {
        let r = counter.allocate(size, || Some(()));
        if r.is_ok() {
            counter.deallocate(size, || ());
        }
        assert_eq!(counter.in_use(), before);
    }
    assert_eq!(counter.in_use(), 17);
}

#[test]
fn count_is_the_sum_of_surviving_allocations() {
    let mut counter = ByteCounter::new();
    let mut surviving: usize = 0;
    let sizes = [30 * MIB, 50 * MIB, 40 * MIB, 60 * MIB, 8 * MIB, CEILING];
    for size in sizes {
        if counter.allocate(size, || Some(())).is_ok() {
            surviving += size;
        }
        assert!(counter.in_use() <= CEILING);
        assert_eq!(counter.in_use(), surviving);
    }
    assert_eq!(surviving, 128 * MIB);
    counter.deallocate(50 * MIB, || ());
    assert_eq!(counter.in_use(), 78 * MIB);
}

#[test]
fn equal_shares_fill_the_ceiling() {
    let parts: usize = 8;
    let mut counter = ByteCounter::new();
    for _ in 0..parts {
        assert_eq!(counter.allocate(CEILING / parts, || Some(())), Ok(()));
    }
    assert_eq!(counter.in_use(), CEILING);
    assert_eq!(counter.allocate(1, || Some(())), Err(AllocError::CapacityExceeded));
}

#[test]
fn release_of_more_than_is_held_wraps() {
    let mut counter = ByteCounter::new();
    counter.release(1);
    assert_eq!(counter.in_use(), usize::MAX);
    assert_eq!(counter.reserve(1), Ok(()));
    assert_eq!(counter.in_use(), 0);
}

#[test]
fn overshoots_compares_the_count_after_the_add() {
    assert!(!overshoots(0, 0));
    assert!(!overshoots(0, CEILING));
    assert!(overshoots(0, CEILING + 1));
    assert!(!overshoots(CEILING - 1, 1));
    assert!(overshoots(CEILING, 1));
    assert!(overshoots(64 * MIB, 65 * MIB));
    assert!(!overshoots(64 * MIB, 64 * MIB));
    assert!(!overshoots(usize::MAX, 1));
    assert!(overshoots(usize::MAX, 0));
}

#[test]
fn admission_goes_by_the_count_after_the_add() {
    assert_eq!(admission_after_add(0, 0), Ok(()));
    assert_eq!(admission_after_add(0, CEILING), Ok(()));
    assert_eq!(admission_after_add(CEILING - 1, 1), Ok(()));
    assert_eq!(admission_after_add(64 * MIB, 64 * MIB), Ok(()));
    assert_eq!(admission_after_add(CEILING, 1), Err(AllocError::CapacityExceeded));
    assert_eq!(admission_after_add(64 * MIB, 65 * MIB), Err(AllocError::CapacityExceeded));
    assert_eq!(admission_after_add(0, CEILING + 1), Err(AllocError::CapacityExceeded));
    assert_eq!(admission_after_add(usize::MAX, 1), Ok(()));
    assert_eq!(admission_after_add(usize::MAX, 0), Err(AllocError::CapacityExceeded));
}
