//! The shared counter under concurrent use, and how far it can overshoot.
//!
//! Threads change the shared counter only by atomic adds and subtracts. All
//! the operations on one atomic word take effect in one order, whatever the
//! threads do elsewhere, so every concurrent execution is a sequence of
//! `Step`s. A request that is over the ceiling alone never gets as far as a
//! step. Any other request adds its size first; the add either stays within
//! the ceiling and the bytes are booked, or it overshoots and the same thread
//! takes the bytes back a moment later.
//!
//! The `Ledger` splits the count accordingly. What is booked never exceeds the
//! ceiling. The count exceeds the ceiling by no more than the bytes of the
//! requests that have overshot and are about to be taken back.

use crate::ceiling::{
    after_allocation, after_release, word_modulus, wrapped_difference, wrapped_sum, CEILING,
};
use vstd::prelude::*;

verus! {

/// One atomic operation on the shared counter.
pub enum Step {
    /// The add of a request of `size` bytes.
    Add { size: nat },
    /// The subtract by which a thread takes back its add of `size` bytes after
    /// seeing that the add overshot.
    TakeBack { size: nat },
    /// The subtract that gives back `size` booked bytes: a release of memory,
    /// or the end of a booking for which the underlying allocator had no
    /// memory.
    Release { size: nat },
}

/// The counter together with the account of where its bytes come from.
pub struct Ledger {
    /// What the counter reads.
    pub count: nat,
    /// The bytes of the adds that stayed within the ceiling, less those given
    /// back.
    pub booked: nat,
    /// The bytes of the adds that overshot and have not been taken back yet.
    pub overshoot: nat,
}

impl Ledger {
    /// The account is in order: every byte counted is either booked or about
    /// to be taken back, and what is booked is within the ceiling.
    pub open spec fn balanced(self) -> bool {
        self.count == self.booked + self.overshoot && self.booked <= CEILING
    }

    /// The ledger after `step`.
    pub open spec fn after(self, step: Step) -> Ledger {
        match step {
            Step::Add { size } => {
                let count = wrapped_sum(self.count, size);
                if count > CEILING {
                    Ledger { count, booked: self.booked, overshoot: self.overshoot + size }
                } else {
                    Ledger { count, booked: self.booked + size, overshoot: self.overshoot }
                }
            },
            Step::TakeBack { size } => Ledger {
                count: wrapped_difference(self.count, size),
                booked: self.booked,
                overshoot: (self.overshoot - size) as nat,
            },
            Step::Release { size } => Ledger {
                count: wrapped_difference(self.count, size),
                booked: (self.booked - size) as nat,
                overshoot: self.overshoot,
            },
        }
    }

    /// Whether `step` can come next. An add is of a request that is within the
    /// ceiling alone, and the bytes in flight fit a machine word. A thread
    /// takes back only an add that overshot, and gives back only bytes that
    /// are booked.
    pub open spec fn allows(self, step: Step) -> bool {
        match step {
            Step::Add { size } => size <= CEILING && self.count + size < word_modulus(),
            Step::TakeBack { size } => size <= self.overshoot,
            Step::Release { size } => size <= self.booked,
        }
    }

    /// The ledger after all of `steps`.
    pub open spec fn after_all(self, steps: Seq<Step>) -> Ledger
        decreases steps.len(),
    {
        if steps.len() == 0 {
            self
        } else {
            self.after_all(steps.drop_last()).after(steps.last())
        }
    }

    /// Whether each of `steps` can come where it stands.
    pub open spec fn allows_all(self, steps: Seq<Step>) -> bool {
        forall|i: int|
            0 <= i < steps.len() ==> self.after_all(steps.take(i)).allows(#[trigger] steps[i])
    }
}

/// The bytes that the adds among `steps` add.
pub open spec fn added(steps: Seq<Step>) -> nat
    decreases steps.len(),
{
    if steps.len() == 0 {
        0
    } else {
        let size = if steps.last() is Add {
            steps.last()->Add_size
        } else {
            0
        };
        added(steps.drop_last()) + size
    }
}

/// The steps that one allocation of `size` bytes takes when the counter reads
/// `held` at its add: none where the request is over the ceiling alone; the
/// add and its taking back where the add overshoots; the add alone where the
/// underlying allocator delivers; the add and the giving back where it does
/// not.
pub open spec fn steps_of_allocation(held: nat, size: nat, delivered: bool) -> Seq<Step> {
    if size > CEILING {
        Seq::empty()
    } else if wrapped_sum(held, size) > CEILING {
        seq![Step::Add { size }, Step::TakeBack { size }]
    } else if delivered {
        seq![Step::Add { size }]
    } else {
        seq![Step::Add { size }, Step::Release { size }]
    }
}

/// One step keeps the account in order.
pub proof fn lemma_step_keeps_balance(ledger: Ledger, step: Step)
    requires
        ledger.balanced(),
        ledger.allows(step),
    ensures
        ledger.after(step).balanced(),
{
}

/// Under any interleaving of any number of threads the account stays in
/// order. So at every moment the count is over the ceiling by no more than the
/// bytes of the adds that are about to be taken back, and whenever no add is
/// waiting to be taken back the count is within the ceiling.
pub proof fn lemma_count_within_tolerance(ledger: Ledger, steps: Seq<Step>, upto: int)
    requires
        ledger.balanced(),
        ledger.allows_all(steps),
        0 <= upto <= steps.len(),
    ensures
        ledger.after_all(steps.take(upto)).balanced(),
        ledger.after_all(steps.take(upto)).count <= CEILING + ledger.after_all(
            steps.take(upto),
        ).overshoot,
        ledger.after_all(steps.take(upto)).overshoot == 0 ==> ledger.after_all(
            steps.take(upto),
        ).count <= CEILING,
    decreases upto,
{
    if upto > 0 {
        lemma_count_within_tolerance(ledger, steps, upto - 1);
        let prefix = steps.take(upto);
        assert(prefix.drop_last() =~= steps.take(upto - 1));
        assert(prefix.last() == steps[upto - 1]);
        lemma_step_keeps_balance(ledger.after_all(steps.take(upto - 1)), steps[upto - 1]);
    }
}

/// An allocation that no other thread interrupts is the allocation of the
/// exclusive counter: its steps can be taken, they leave nothing to be taken
/// back, and the count after them is the one that `after_allocation` gives.
pub proof fn lemma_uninterrupted_allocation(ledger: Ledger, size: nat, delivered: bool)
    requires
        ledger.balanced(),
        ledger.overshoot == 0,
    ensures
        ledger.allows_all(steps_of_allocation(ledger.count, size, delivered)),
        ledger.after_all(steps_of_allocation(ledger.count, size, delivered)).count
            == after_allocation(ledger.count, size, delivered),
        ledger.after_all(steps_of_allocation(ledger.count, size, delivered)).overshoot == 0,
        ledger.after_all(steps_of_allocation(ledger.count, size, delivered)).balanced(),
{
    let steps = steps_of_allocation(ledger.count, size, delivered);
    if steps.len() >= 1 {
        let first = steps.take(1);
        assert(steps.take(0) =~= Seq::<Step>::empty());
        assert(first.drop_last() =~= Seq::<Step>::empty());
        assert(ledger.after_all(first.drop_last()) == ledger);
        assert(ledger.after_all(first) == ledger.after(steps[0]));
        if steps.len() == 2 {
            assert(steps.drop_last() =~= first);
            assert(ledger.after_all(steps) == ledger.after(steps[0]).after(steps[1]));
        } else {
            assert(steps =~= first);
        }
    }
}

/// A release that no other thread interrupts is the release of the exclusive
/// counter.
pub proof fn lemma_uninterrupted_release(ledger: Ledger, size: nat)
    requires
        ledger.balanced(),
        size <= ledger.booked,
    ensures
        ledger.allows(Step::Release { size }),
        ledger.after(Step::Release { size }).count == after_release(ledger.count, size),
        ledger.after(Step::Release { size }).balanced(),
{
}

/// Threads whose requests together stay within the ceiling all succeed, in
/// whatever order their adds take effect: where nothing is waiting to be taken
/// back, the steps are adds only, and the count plus all the bytes added is
/// within the ceiling, no add overshoots, every byte is booked, and the count
/// ends at that total.
pub proof fn lemma_adds_within_ceiling_all_booked(ledger: Ledger, steps: Seq<Step>)
    requires
        ledger.balanced(),
        ledger.overshoot == 0,
        forall|i: int| 0 <= i < steps.len() ==> #[trigger] steps[i] is Add,
        ledger.count + added(steps) <= CEILING,
    ensures
        ledger.allows_all(steps),
        ledger.after_all(steps).overshoot == 0,
        ledger.after_all(steps).booked == ledger.booked + added(steps),
        ledger.after_all(steps).count == ledger.count + added(steps),
    decreases steps.len(),
{
    if steps.len() > 0 {
        let earlier = steps.drop_last();
        assert forall|i: int| 0 <= i < earlier.len() implies #[trigger] earlier[i] is Add by {
            assert(earlier[i] == steps[i]);
        }
        assert(steps.last() == steps[steps.len() - 1]);
        lemma_adds_within_ceiling_all_booked(ledger, earlier);
        assert forall|i: int| 0 <= i < steps.len() implies ledger.after_all(
            steps.take(i),
        ).allows(#[trigger] steps[i]) by {
            if i < earlier.len() {
                assert(steps.take(i) =~= earlier.take(i));
                assert(steps[i] == earlier[i]);
            } else {
                assert(steps.take(i) =~= earlier);
            }
        }
    }
}

} // verus!
