//! The byte counter as many threads share it: one atomic word, no lock.
//!
//! The operations are those of the exclusive counter, made of atomic adds and
//! subtracts. Between any two of them other threads may change the word, so a
//! contract here cannot speak of the count: it states what holds whatever the
//! other threads did. What a request's fate is, given the value that its add
//! observed, is decided by `ceiling::admission_after_add`, whose contract is
//! exact.
//!
//! An add that has to be taken back leaves the count over the ceiling for the
//! time between the add and the subtract, and for no longer. What holds of the
//! count under every interleaving of these steps is proved in `interleaving`.

use crate::ceiling::{admission_after_add, AllocError, CEILING};
use std::sync::atomic::AtomicUsize;
use std::sync::atomic::Ordering;
use vstd::prelude::*;

verus! {

/// The bytes held at the moment of the read.
pub fn in_use(counter: &AtomicUsize) -> (bytes: usize) {
    counter.load(Ordering::Acquire)
}

/// Books `size` bytes if the ceiling allows it.
///
/// A request over the ceiling is refused at once and the counter is not
/// touched. Otherwise `size` is added in one atomic step; if the count just
/// after that add is over the ceiling, `size` is subtracted again and the
/// request is refused.
pub fn reserve(counter: &AtomicUsize, size: usize) -> (r: Result<(), AllocError>)
    ensures
        size > CEILING ==> r is Err,
        r is Err ==> r == Err::<(), AllocError>(AllocError::CapacityExceeded),
{
    if size > CEILING {
        return Err(AllocError::CapacityExceeded);
    }
    let before: usize = counter.fetch_add(size, Ordering::AcqRel);
    let admission = admission_after_add(before, size);
    match admission {
        Ok(()) => {},
        Err(_) => {
            counter.fetch_sub(size, Ordering::AcqRel);
        },
    }
    admission
}

/// Closes a reservation of `size` bytes once the underlying allocator has
/// answered.
///
/// With memory the reservation stands and the memory is handed on. Without,
/// the `size` bytes are subtracted again.
pub fn settle<P>(counter: &AtomicUsize, size: usize, delegated: Option<P>) -> (r: Result<
    P,
    AllocError,
>)
    ensures
        delegated matches Some(memory) ==> r == Ok::<P, AllocError>(memory),
        delegated is None ==> r == Err::<P, AllocError>(AllocError::UnderlyingAllocatorFailure),
{
    match delegated {
        Some(memory) => Ok(memory),
        None => {
            counter.fetch_sub(size, Ordering::AcqRel);
            Err(AllocError::UnderlyingAllocatorFailure)
        },
    }
}

/// Subtracts `size` bytes in one atomic step.
pub fn release(counter: &AtomicUsize, size: usize) {
    counter.fetch_sub(size, Ordering::AcqRel);
}

/// Allocates `size` bytes through `delegate`, within the ceiling.
///
/// `delegate` stands for the underlying allocator: it returns the memory, or
/// `None` where it has none. It is called once, and only after the bytes have
/// been booked. Neither failure is fatal, and neither leaves bytes booked.
pub fn allocate<P, F: FnOnce() -> Option<P>>(counter: &AtomicUsize, size: usize, delegate: F) -> (r:
    Result<P, AllocError>)
    requires
        call_requires(delegate, ()),
    ensures
        size > CEILING ==> r == Err::<P, AllocError>(AllocError::CapacityExceeded),
        r matches Ok(memory) ==> call_ensures(delegate, (), Some(memory)),
        r == Err::<P, AllocError>(AllocError::UnderlyingAllocatorFailure) ==> call_ensures(
            delegate,
            (),
            None::<P>,
        ),
{
    match reserve(counter, size) {
        Err(refusal) => Err(refusal),
        Ok(()) => {
            let delegated = delegate();
            settle(counter, size, delegated)
        },
    }
}

/// Gives memory of `size` bytes back through `free`, then subtracts the bytes.
///
/// The order is fixed: the count drops only after the memory is released, so
/// that it never understates what is held.
pub fn deallocate<F: FnOnce()>(counter: &AtomicUsize, size: usize, free: F)
    requires
        call_requires(free, ()),
    ensures
        call_ensures(free, (), ()),
{
    free();
    release(counter, size);
}

} // verus!
