//! The byte counter for a holder with exclusive access.
//!
//! This is the counter as one thread sees it: every operation is a function of
//! the count before it and of its arguments, and its contract says exactly
//! what it returns and what the count is afterwards.

use crate::ceiling::{
    admission_after_add, admits, after_admission, after_allocation, after_release,
    after_settlement, AllocError, CEILING,
};
use vstd::prelude::*;

verus! {

/// How many bytes the module holds.
#[derive(Debug)]
pub struct ByteCounter {
    bytes: usize,
}

impl View for ByteCounter {
    type V = nat;

    closed spec fn view(&self) -> nat {
        self.bytes as nat
    }
}

impl ByteCounter {
    /// Whether the count is within the ceiling.
    pub open spec fn within_ceiling(&self) -> bool {
        self@ <= CEILING
    }

    /// A counter that holds nothing.
    pub fn new() -> (counter: Self)
        ensures
            counter@ == 0,
            counter.within_ceiling(),
    {
        ByteCounter { bytes: 0 }
    }

    /// The bytes held now.
    pub fn in_use(&self) -> (bytes: usize)
        ensures
            bytes == self@,
    {
        self.bytes
    }

    /// Books `size` bytes if the ceiling allows it.
    ///
    /// A request over the ceiling is refused at once. Otherwise `size` is added
    /// to the count; if the count is then over the ceiling, the add is taken
    /// back and the request is refused. A refusal leaves the count as it was.
    pub fn reserve(&mut self, size: usize) -> (r: Result<(), AllocError>)
        ensures
            r is Ok <==> admits(old(self)@, size as nat),
            r is Err ==> r == Err::<(), AllocError>(AllocError::CapacityExceeded),
            final(self)@ == after_admission(old(self)@, size as nat),
            r is Ok ==> final(self).within_ceiling(),
            old(self).within_ceiling() ==> final(self).within_ceiling(),
    {
        if size > CEILING {
            return Err(AllocError::CapacityExceeded);
        }
        let before: usize = self.bytes;
        self.bytes = before.wrapping_add(size);
        let admission = admission_after_add(before, size);
        match admission {
            Ok(()) => {},
            Err(_) => {
                self.bytes = self.bytes.wrapping_sub(size);
            },
        }
        admission
    }

    /// Closes a reservation of `size` bytes once the underlying allocator has
    /// answered.
    ///
    /// `delegated` is that answer: the memory, or `None` where the allocator
    /// had none. With memory the reservation stands and the memory is handed
    /// on. Without, the `size` bytes are taken off the count again.
    pub fn settle<P>(&mut self, size: usize, delegated: Option<P>) -> (r: Result<P, AllocError>)
        ensures
            delegated matches Some(memory) ==> r == Ok::<P, AllocError>(memory),
            delegated is None ==> r == Err::<P, AllocError>(
                AllocError::UnderlyingAllocatorFailure,
            ),
            final(self)@ == after_settlement(old(self)@, size as nat, delegated is Some),
            old(self).within_ceiling() && size <= old(self)@ ==> final(self).within_ceiling(),
    {
        match delegated {
            Some(memory) => Ok(memory),
            None => {
                self.bytes = self.bytes.wrapping_sub(size);
                Err(AllocError::UnderlyingAllocatorFailure)
            },
        }
    }

    /// Takes `size` bytes off the count.
    ///
    /// The caller passes the size that was booked for the memory it has just
    /// given back. The subtraction is that of the machine word: it wraps where
    /// more is released than is held.
    pub fn release(&mut self, size: usize)
        ensures
            final(self)@ == after_release(old(self)@, size as nat),
            size <= old(self)@ ==> final(self)@ == old(self)@ - size,
            old(self).within_ceiling() && size <= old(self)@ ==> final(self).within_ceiling(),
    {
        self.bytes = self.bytes.wrapping_sub(size);
    }

    /// Allocates `size` bytes through `delegate`, within the ceiling.
    ///
    /// `delegate` stands for the underlying allocator: it returns the memory,
    /// or `None` where it has none. It is called only where the request is
    /// admitted. The count grows by `size` exactly when memory is returned; on
    /// either failure it is what it was.
    pub fn allocate<P, F: FnOnce() -> Option<P>>(&mut self, size: usize, delegate: F) -> (r:
        Result<P, AllocError>)
        requires
            call_requires(delegate, ()),
        ensures
            !admits(old(self)@, size as nat) ==> r == Err::<P, AllocError>(
                AllocError::CapacityExceeded,
            ),
            admits(old(self)@, size as nat) ==> (r matches Ok(memory) ==> call_ensures(
                delegate,
                (),
                Some(memory),
            )),
            admits(old(self)@, size as nat) ==> (r matches Err(error) ==> error
                == AllocError::UnderlyingAllocatorFailure && call_ensures(delegate, (), None::<P>)),
            final(self)@ == after_allocation(old(self)@, size as nat, r is Ok),
            size > CEILING ==> final(self)@ == old(self)@,
            old(self).within_ceiling() ==> final(self).within_ceiling(),
    {
        match self.reserve(size) {
            Err(refusal) => Err(refusal),
            Ok(()) => {
                let delegated = delegate();
                self.settle(size, delegated)
            },
        }
    }

    /// Gives memory of `size` bytes back through `free`, then takes the bytes
    /// off the count.
    ///
    /// `free` stands for the underlying allocator's release. The order is
    /// fixed: the memory is released first, the count drops after.
    pub fn deallocate<F: FnOnce()>(&mut self, size: usize, free: F)
        requires
            call_requires(free, ()),
        ensures
            call_ensures(free, (), ()),
            final(self)@ == after_release(old(self)@, size as nat),
            size <= old(self)@ ==> final(self)@ == old(self)@ - size,
            old(self).within_ceiling() && size <= old(self)@ ==> final(self).within_ceiling(),
    {
        free();
        self.release(size);
    }
}

} // verus!
