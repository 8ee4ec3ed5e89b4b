//! Histories of allocations and releases, and what holds of every one of them.
//!
//! A history is the sequence of operations that one counter has seen, in the
//! order in which they took effect. `run` replays a history with the same
//! arithmetic that the counters use, so what is proved here of `run` holds of
//! every sequence of calls on a counter.

use crate::ceiling::{
    admits, after_allocation, after_release, word_modulus, wrapped_difference, wrapped_sum,
    CEILING,
};
use vstd::prelude::*;

verus! {

/// One operation on the counter.
pub enum Event {
    /// An allocation of `size` bytes. `delivered` says whether the underlying
    /// allocator has memory for it, should it be asked.
    Allocate { size: nat, delivered: bool },
    /// A release of memory booked with `size` bytes.
    Deallocate { size: nat },
}

/// Whether `event` is an allocation that succeeds when `held` bytes are held.
pub open spec fn grants(held: nat, event: Event) -> bool {
    event matches Event::Allocate { size, delivered } && admits(held, size) && delivered
}

/// The count after `event`, given the count before it.
pub open spec fn step(held: nat, event: Event) -> nat {
    match event {
        Event::Allocate { size, delivered } => after_allocation(held, size, delivered),
        Event::Deallocate { size } => after_release(held, size),
    }
}

/// The count after all of `events`, starting from `held`.
pub open spec fn run(held: nat, events: Seq<Event>) -> nat
    decreases events.len(),
{
    if events.len() == 0 {
        held
    } else {
        step(run(held, events.drop_last()), events.last())
    }
}

/// The pairing discipline: no release gives back more than is held at that
/// moment. It holds wherever each release names the size of an allocation that
/// succeeded earlier and has not been released since.
pub open spec fn releases_only_what_is_held(held: nat, events: Seq<Event>) -> bool {
    forall|i: int|
        0 <= i < events.len() ==> (#[trigger] events[i] matches Event::Deallocate { size }
            ==> size <= run(held, events.take(i)))
}

/// The sizes of the allocations that have succeeded in the course of `events`
/// and have not been released since, oldest first.
pub open spec fn outstanding(held: nat, events: Seq<Event>) -> Seq<nat>
    decreases events.len(),
{
    if events.len() == 0 {
        Seq::empty()
    } else {
        let earlier = outstanding(held, events.drop_last());
        match events.last() {
            Event::Allocate { size, .. } => if grants(
                run(held, events.drop_last()),
                events.last(),
            ) {
                earlier.push(size)
            } else {
                earlier
            },
            Event::Deallocate { size } => if earlier.contains(size) {
                earlier.remove(earlier.index_of(size))
            } else {
                earlier
            },
        }
    }
}

/// The pairing discipline as a caller keeps it: every release names the size
/// of an allocation that succeeded earlier in the history and has not been
/// released since.
pub open spec fn releases_are_paired(held: nat, events: Seq<Event>) -> bool {
    forall|i: int|
        0 <= i < events.len() ==> (#[trigger] events[i] matches Event::Deallocate { size }
            ==> outstanding(held, events.take(i)).contains(size))
}

/// The sum of `sizes`.
pub open spec fn total(sizes: Seq<nat>) -> nat
    decreases sizes.len(),
{
    if sizes.len() == 0 {
        0
    } else {
        total(sizes.drop_last()) + sizes.last()
    }
}

/// The bytes of all allocations that succeed in the course of `events`.
pub open spec fn granted(held: nat, events: Seq<Event>) -> nat
    decreases events.len(),
{
    if events.len() == 0 {
        0
    } else {
        let earlier = events.drop_last();
        let size = if grants(run(held, earlier), events.last()) {
            events.last()->Allocate_size
        } else {
            0
        };
        granted(held, earlier) + size
    }
}

/// The bytes of all releases in `events`.
pub open spec fn released(events: Seq<Event>) -> nat
    decreases events.len(),
{
    if events.len() == 0 {
        0
    } else {
        let size = if events.last() is Deallocate {
            events.last()->Deallocate_size
        } else {
            0
        };
        released(events.drop_last()) + size
    }
}

/// The bytes that the allocations in `events` ask for, granted or not.
pub open spec fn requested(events: Seq<Event>) -> nat
    decreases events.len(),
{
    if events.len() == 0 {
        0
    } else {
        let size = if events.last() is Allocate {
            events.last()->Allocate_size
        } else {
            0
        };
        requested(events.drop_last()) + size
    }
}

/// The history of one request: the allocation and, where it succeeds with
/// `held` bytes held, the release of the same size after it.
pub open spec fn round_trip(held: nat, size: nat, delivered: bool) -> Seq<Event> {
    if admits(held, size) && delivered {
        seq![Event::Allocate { size, delivered }, Event::Deallocate { size }]
    } else {
        seq![Event::Allocate { size, delivered }]
    }
}

/// The history in which each of `requests`, a size and the underlying
/// allocator's answer, makes its round trip before the next begins.
pub open spec fn round_trips(held: nat, requests: Seq<(nat, bool)>) -> Seq<Event>
    decreases requests.len(),
{
    if requests.len() == 0 {
        Seq::empty()
    } else {
        round_trips(held, requests.drop_last()) + round_trip(
            held,
            requests.last().0,
            requests.last().1,
        )
    }
}

/// The history in which `count` callers each ask for one share of the
/// ceiling, a share being the ceiling divided by `parts`, and the underlying
/// allocator serves them all.
pub open spec fn equal_shares(parts: nat, count: nat) -> Seq<Event>
    recommends
        parts > 0,
{
    Seq::new(count, |i: int| Event::Allocate { size: CEILING as nat / parts, delivered: true })
}

/// Replaying two histories one after the other is replaying their
/// concatenation.
pub proof fn lemma_run_concatenation(held: nat, first: Seq<Event>, second: Seq<Event>)
    ensures
        run(held, first + second) == run(run(held, first), second),
    decreases second.len(),
{
    if second.len() == 0 {
        assert(first + second =~= first);
    } else {
        assert((first + second).drop_last() =~= first + second.drop_last());
        assert((first + second).last() == second.last());
        lemma_run_concatenation(held, first, second.drop_last());
    }
}

/// A request over the ceiling never changes the count, whatever is held and
/// whatever the underlying allocator would have answered.
pub proof fn lemma_oversized_request_changes_nothing(held: nat, size: nat, delivered: bool)
    requires
        size > CEILING,
    ensures
        step(held, Event::Allocate { size, delivered }) == held,
        !grants(held, Event::Allocate { size, delivered }),
{
}

/// The count never leaves the ceiling: starting within it, and under the
/// pairing discipline, the count is within the ceiling after every prefix of
/// every history.
pub proof fn lemma_count_stays_within_ceiling(held: nat, events: Seq<Event>, upto: int)
    requires
        held <= CEILING,
        releases_only_what_is_held(held, events),
        0 <= upto <= events.len(),
    ensures
        0 <= run(held, events.take(upto)) <= CEILING,
    decreases upto,
{
    if upto > 0 {
        lemma_count_stays_within_ceiling(held, events, upto - 1);
        let prefix = events.take(upto);
        assert(prefix.drop_last() =~= events.take(upto - 1));
        assert(prefix.last() == events[upto - 1]);
    }
}

/// Taking one size out of a sequence takes it out of the sum.
proof fn lemma_total_without_one(sizes: Seq<nat>, at: int)
    requires
        0 <= at < sizes.len(),
    ensures
        total(sizes.remove(at)) + sizes[at] == total(sizes),
    decreases sizes.len(),
{
    if at == sizes.len() - 1 {
        assert(sizes.remove(at) =~= sizes.drop_last());
    } else {
        assert(sizes.remove(at).drop_last() =~= sizes.drop_last().remove(at));
        assert(sizes.remove(at).last() == sizes.last());
        lemma_total_without_one(sizes.drop_last(), at);
    }
}

/// Every prefix of a paired history is paired.
proof fn lemma_paired_prefix(held: nat, events: Seq<Event>, upto: int)
    requires
        releases_are_paired(held, events),
        0 <= upto <= events.len(),
    ensures
        releases_are_paired(held, events.take(upto)),
{
    let prefix = events.take(upto);
    assert forall|i: int| 0 <= i < prefix.len() implies (#[trigger] prefix[i] matches
    Event::Deallocate { size } ==> outstanding(held, prefix.take(i)).contains(size)) by {
        assert(prefix[i] == events[i]);
        assert(prefix.take(i) =~= events.take(i));
    }
}

/// In a paired history that starts within the ceiling, the count is what was
/// held at the start plus everything outstanding.
proof fn lemma_count_covers_outstanding(held: nat, events: Seq<Event>)
    requires
        held <= CEILING,
        releases_are_paired(held, events),
    ensures
        run(held, events) == held + total(outstanding(held, events)),
        run(held, events) <= CEILING,
    decreases events.len(),
{
    if events.len() > 0 {
        let earlier = events.drop_last();
        assert(earlier =~= events.take(events.len() - 1));
        lemma_paired_prefix(held, events, events.len() - 1);
        lemma_count_covers_outstanding(held, earlier);
        let sizes = outstanding(held, earlier);
        assert(events.last() == events[events.len() - 1]);
        match events.last() {
            Event::Allocate { size, .. } => {
                assert(sizes.push(size).drop_last() =~= sizes);
            },
            Event::Deallocate { size } => {
                assert(sizes.contains(size));
                lemma_total_without_one(sizes, sizes.index_of(size));
            },
        }
    }
}

/// A caller that releases only what it was given keeps the discipline that
/// the count relies on: where the count starts within the ceiling and every
/// release is paired with an outstanding allocation, no release gives back
/// more than is held.
pub proof fn lemma_paired_releases_are_held(held: nat, events: Seq<Event>)
    requires
        held <= CEILING,
        releases_are_paired(held, events),
    ensures
        releases_only_what_is_held(held, events),
{
    assert forall|i: int| 0 <= i < events.len() implies (#[trigger] events[i] matches
    Event::Deallocate { size } ==> size <= run(held, events.take(i))) by {
        match events[i] {
            Event::Deallocate { size } => {
                let sizes = outstanding(held, events.take(i));
                lemma_paired_prefix(held, events, i);
                lemma_count_covers_outstanding(held, events.take(i));
                lemma_total_without_one(sizes, sizes.index_of(size));
            },
            Event::Allocate { .. } => {},
        }
    }
}

/// An allocation that succeeds and the release that matches it leave the
/// count where it was; an allocation that fails leaves it there at once. This
/// holds of every value a machine word can take.
pub proof fn lemma_round_trip_restores_count(held: nat, size: nat, delivered: bool)
    requires
        held < word_modulus(),
        size < word_modulus(),
    ensures
        run(held, round_trip(held, size, delivered)) == held,
{
    let allocation = Event::Allocate { size, delivered };
    let one = seq![allocation];
    assert(one.drop_last() =~= Seq::<Event>::empty());
    assert(run(held, one.drop_last()) == held);
    assert(run(held, one) == step(held, allocation));
    if admits(held, size) && delivered {
        let release = Event::Deallocate { size };
        let both = seq![allocation, release];
        assert(both.drop_last() =~= one);
        assert(run(held, both) == step(step(held, allocation), release));
        assert(wrapped_difference(wrapped_sum(held, size), size) == held);
    }
}

/// Any number of allocations, each followed by its matching release, leave
/// the count exactly where it was before the first.
pub proof fn lemma_round_trips_restore_count(held: nat, requests: Seq<(nat, bool)>)
    requires
        held < word_modulus(),
        forall|i: int| 0 <= i < requests.len() ==> (#[trigger] requests[i]).0 < word_modulus(),
    ensures
        run(held, round_trips(held, requests)) == held,
    decreases requests.len(),
{
    if requests.len() > 0 {
        let earlier = requests.drop_last();
        let last = requests.last();
        assert forall|i: int| 0 <= i < earlier.len() implies (#[trigger] earlier[i]).0
            < word_modulus() by {
            assert(earlier[i] == requests[i]);
        }
        lemma_round_trips_restore_count(held, earlier);
        lemma_run_concatenation(
            held,
            round_trips(held, earlier),
            round_trip(held, last.0, last.1),
        );
        lemma_round_trip_restores_count(held, last.0, last.1);
    }
}

/// The count is a balance: starting within the ceiling, and under the pairing
/// discipline, the count after a history is the count before it, plus the
/// bytes of the allocations that succeeded, minus the bytes released. No
/// update is lost and none counts twice.
pub proof fn lemma_count_is_balance(held: nat, events: Seq<Event>)
    requires
        held <= CEILING,
        releases_only_what_is_held(held, events),
    ensures
        run(held, events) + released(events) == held + granted(held, events),
    decreases events.len(),
{
    if events.len() > 0 {
        let earlier = events.drop_last();
        assert(earlier =~= events.take(events.len() - 1));
        assert forall|i: int| 0 <= i < earlier.len() implies (#[trigger] earlier[i] matches
        Event::Deallocate { size } ==> size <= run(held, earlier.take(i))) by {
            assert(earlier[i] == events[i]);
            assert(earlier.take(i) =~= events.take(i));
        }
        lemma_count_is_balance(held, earlier);
        lemma_count_stays_within_ceiling(held, events, events.len() - 1);
        assert(events.last() == events[events.len() - 1]);
    }
}

/// Allocations that together stay within the ceiling all succeed, in whatever
/// order they take effect: where a history holds only allocations that the
/// underlying allocator can serve, and the bytes held plus all the bytes asked
/// for are within the ceiling, every one is granted and the count ends at
/// that total.
pub proof fn lemma_requests_within_ceiling_all_granted(held: nat, events: Seq<Event>)
    requires
        forall|i: int|
            0 <= i < events.len() ==> (#[trigger] events[i] matches Event::Allocate {
                delivered,
                ..
            } && delivered),
        held + requested(events) <= CEILING,
    ensures
        run(held, events) == held + requested(events),
        granted(held, events) == requested(events),
    decreases events.len(),
{
    if events.len() > 0 {
        let earlier = events.drop_last();
        assert forall|i: int| 0 <= i < earlier.len() implies (#[trigger] earlier[i] matches
        Event::Allocate { delivered, .. } && delivered) by {
            assert(earlier[i] == events[i]);
        }
        assert(events.last() == events[events.len() - 1]);
        lemma_requests_within_ceiling_all_granted(held, earlier);
    }
}

/// `count` equal shares ask for `count` times the share.
proof fn lemma_requested_of_equal_shares(parts: nat, count: nat)
    requires
        parts > 0,
    ensures
        requested(equal_shares(parts, count)) == count * (CEILING as nat / parts),
    decreases count,
{
    let shares = equal_shares(parts, count);
    let share: nat = CEILING as nat / parts;
    assert(shares.len() == count);
    if count == 0 {
        assert(count * share == 0);
    } else {
        assert(shares.drop_last() =~= equal_shares(parts, (count - 1) as nat));
        assert(shares.last() == Event::Allocate { size: share, delivered: true });
        lemma_requested_of_equal_shares(parts, (count - 1) as nat);
        assert(count * share == (count - 1) * share + share) by (nonlinear_arith)
            requires
                count > 0,
        ;
    }
}

/// As many callers as the ceiling has shares all get their share, and the
/// count ends at the sum of the shares: at the ceiling itself where the
/// ceiling divides evenly.
pub proof fn lemma_equal_shares_all_granted(parts: nat)
    requires
        parts > 0,
    ensures
        run(0, equal_shares(parts, parts)) == parts * (CEILING as nat / parts),
        granted(0, equal_shares(parts, parts)) == parts * (CEILING as nat / parts),
        CEILING as nat % parts == 0 ==> run(0, equal_shares(parts, parts)) == CEILING,
{
    lemma_requested_of_equal_shares(parts, parts);
    vstd::arithmetic::div_mod::lemma_fundamental_div_mod(CEILING as int, parts as int);
    lemma_requests_within_ceiling_all_granted(0, equal_shares(parts, parts));
}

} // verus!
