//! The ceiling, the arithmetic of the byte counter, and the rules that decide
//! whether a request is admitted.
//!
//! Everything here is a function of plain integers. The counter is one machine
//! word that is only ever changed by adding or subtracting a request's size, as
//! an atomic add or subtract does it: modulo the word size. While every release
//! gives back bytes that are held, no such operation wraps.

use vstd::prelude::*;

verus! {

/// The most bytes the module may hold at once: 128 MiB.
pub const CEILING: usize = 134_217_728;

/// Why an allocation was refused.
#[derive(Clone, Copy, Debug, PartialEq, Eq, Structural)]
pub enum AllocError {
    /// The request alone, or the request on top of what is held, is over the
    /// ceiling.
    CapacityExceeded,
    /// The request was within the ceiling, but the underlying allocator had no
    /// memory to give.
    UnderlyingAllocatorFailure,
}

/// The number of values a machine word can take.
pub open spec fn word_modulus() -> nat {
    usize::MAX as nat + 1
}

/// The count after `size` is added to `held`, modulo the word size.
pub open spec fn wrapped_sum(held: nat, size: nat) -> nat {
    if held + size >= word_modulus() {
        (held + size - word_modulus()) as nat
    } else {
        held + size
    }
}

/// The count after `size` is subtracted from `held`, modulo the word size.
pub open spec fn wrapped_difference(held: nat, size: nat) -> nat {
    if held < size {
        (held + word_modulus() - size) as nat
    } else {
        (held - size) as nat
    }
}

/// Whether a request of `size` bytes is admitted when `held` bytes are held:
/// the request alone is within the ceiling, and so is the count once the
/// request is added.
pub open spec fn admits(held: nat, size: nat) -> bool {
    size <= CEILING && wrapped_sum(held, size) <= CEILING
}

/// The count after a request of `size` bytes has been decided: grown by `size`
/// where the request is admitted, unchanged where it is refused.
pub open spec fn after_admission(held: nat, size: nat) -> nat {
    if admits(held, size) {
        wrapped_sum(held, size)
    } else {
        held
    }
}

/// The count after the underlying allocator has answered an admitted request
/// of `size` bytes: unchanged where it delivered, `size` less where it did not.
pub open spec fn after_settlement(held: nat, size: nat, delivered: bool) -> nat {
    if delivered {
        held
    } else {
        wrapped_difference(held, size)
    }
}

/// The count after a whole allocation of `size` bytes: grown by `size` where
/// the request is admitted and the underlying allocator delivered, unchanged
/// otherwise.
pub open spec fn after_allocation(held: nat, size: nat, delivered: bool) -> nat {
    if admits(held, size) && delivered {
        wrapped_sum(held, size)
    } else {
        held
    }
}

/// The count after memory of `size` bytes has been given back.
pub open spec fn after_release(held: nat, size: nat) -> nat {
    wrapped_difference(held, size)
}

/// Decides a request from the count that its add observed.
///
/// `before` is what the counter read just before `size` was added to it. The
/// result is `true` when the count just after the add is over the ceiling, so
/// that the add has to be taken back.
pub fn overshoots(before: usize, size: usize) -> (over: bool)
    ensures
        over == (wrapped_sum(before as nat, size as nat) > CEILING),
{
    before.wrapping_add(size) > CEILING
}

/// Decides a request whose add has taken effect, from the count that the add
/// observed.
///
/// `before` is what the counter read just before `size` was added to it. The
/// request is admitted when the count just after the add is within the
/// ceiling. Otherwise it is refused, and the caller takes the add back.
pub fn admission_after_add(before: usize, size: usize) -> (r: Result<(), AllocError>)
    ensures
        r is Ok <==> wrapped_sum(before as nat, size as nat) <= CEILING,
        r is Err ==> r == Err::<(), AllocError>(AllocError::CapacityExceeded),
{
    if overshoots(before, size) {
        Err(AllocError::CapacityExceeded)
    } else {
        Ok(())
    }
}

} // verus!
