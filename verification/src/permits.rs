//! The counter of free permits as a state machine on natural numbers.

use vstd::prelude::*;

verus! {

/// A permit can be taken exactly when one is free.
pub open spec fn can_acquire(count: nat) -> bool {
    count > 0
}

/// The counter after one permit was taken from `count`.
pub open spec fn after_acquire(count: nat) -> nat
    recommends
        can_acquire(count),
{
    (count - 1) as nat
}

/// The counter after one permit was given back to `count`.
pub open spec fn after_release(count: nat) -> nat {
    count + 1
}

/// Whether no permit is free: the condition under which an acquirer has to wait.
pub fn is_exhausted(count: usize) -> (exhausted: bool)
    ensures
        exhausted == !can_acquire(count as nat),
{
    count == 0
}

/// Takes one permit if one is free: `Some` of the counter that remains, or `None`
/// when `count` is zero, in which case the counter is to stay as it is.
pub fn try_take(count: usize) -> (rest: Option<usize>)
    ensures
        can_acquire(count as nat) ==> rest == Some(after_acquire(count as nat) as usize),
        !can_acquire(count as nat) ==> rest.is_none(),
{
    if count > 0 {
        Some(count - 1)
    } else {
        None
    }
}

/// Gives one permit back. The counter is not clamped to any capacity; only a counter
/// that already holds `usize::MAX` cannot grow and stays where it is.
pub fn give(count: usize) -> (grown: usize)
    ensures
        count < usize::MAX ==> grown as nat == after_release(count as nat),
        count == usize::MAX ==> grown == count,
    opens_invariants none
    no_unwind
{
    if count < usize::MAX {
        count + 1
    } else {
        count
    }
}

/// One completed operation on the counter. Every operation runs under the lock, so
/// whatever the threads do, the counter goes through them one after the other.
pub enum Step {
    /// A permit was taken.
    Acquire,
    /// A permit was given back.
    Release,
}

/// How many permits a history took.
pub open spec fn acquires(history: Seq<Step>) -> nat
    decreases history.len(),
{
    if history.len() == 0 {
        0
    } else {
        acquires(history.drop_last()) + if history.last() is Acquire { 1nat } else { 0nat }
    }
}

/// How many permits a history gave back.
pub open spec fn releases(history: Seq<Step>) -> nat
    decreases history.len(),
{
    if history.len() == 0 {
        0
    } else {
        releases(history.drop_last()) + if history.last() is Release { 1nat } else { 0nat }
    }
}

/// The counter after a history that began with `initial` free permits.
pub open spec fn count_after(initial: nat, history: Seq<Step>) -> nat
    decreases history.len(),
{
    if history.len() == 0 {
        initial
    } else {
        let before = count_after(initial, history.drop_last());
        match history.last() {
            Step::Acquire => after_acquire(before),
            Step::Release => after_release(before),
        }
    }
}

/// A history that a semaphore with `initial` permits can go through: each acquire in
/// it found a free permit. Releases are never refused.
pub open spec fn admissible(initial: nat, history: Seq<Step>) -> bool
    decreases history.len(),
{
    history.len() == 0 || {
        &&& admissible(initial, history.drop_last())
        &&& history.last() is Acquire ==> can_acquire(
            count_after(initial, history.drop_last()),
        )
    }
}

/// Balanced use: at every moment of the history, no more permits had been given back
/// than had been taken.
pub open spec fn balanced(history: Seq<Step>) -> bool
    decreases history.len(),
{
    history.len() == 0 || {
        &&& balanced(history.drop_last())
        &&& releases(history) <= acquires(history)
    }
}

/// The history of `taken` acquires followed by `given` releases.
pub open spec fn acquires_then_releases(taken: nat, given: nat) -> Seq<Step> {
    Seq::new(taken, |i: int| Step::Acquire) + Seq::new(given, |i: int| Step::Release)
}

/// What holds of a history holds of each of its beginnings: a beginning of an
/// admissible history is admissible, and one of a balanced history is balanced.
pub proof fn lemma_prefix(initial: nat, history: Seq<Step>, n: int)
    requires
        0 <= n <= history.len(),
    ensures
        admissible(initial, history) ==> admissible(initial, history.take(n)),
        balanced(history) ==> balanced(history.take(n)),
    decreases history.len(),
{
    if n == history.len() {
        assert(history.take(n) =~= history);
    } else {
        assert(history.drop_last().take(n) =~= history.take(n));
        lemma_prefix(initial, history.drop_last(), n);
    }
}

/// Permits are conserved: after an admissible history the free permits and the
/// permits taken add up to the initial permits and the permits given back.
pub proof fn lemma_conservation(initial: nat, history: Seq<Step>)
    requires
        admissible(initial, history),
    ensures
        count_after(initial, history) + acquires(history) == initial + releases(history),
    decreases history.len(),
{
    if history.len() > 0 {
        lemma_conservation(initial, history.drop_last());
    }
}

/// At every moment `n` of an admissible history the counter is the initial count plus
/// the releases minus the acquires so far. So it never falls below zero, it never
/// exceeds the initial count by more than the releases that no acquire preceded, and
/// under balanced use it stays within the initial count.
pub proof fn law_counter_bounds(initial: nat, history: Seq<Step>, n: int)
    requires
        admissible(initial, history),
        0 <= n <= history.len(),
    ensures
        count_after(initial, history.take(n)) == initial + releases(history.take(n)) - acquires(
            history.take(n),
        ),
        acquires(history.take(n)) <= initial + releases(history.take(n)),
        balanced(history) ==> count_after(initial, history.take(n)) <= initial,
{
    lemma_prefix(initial, history, n);
    lemma_conservation(initial, history.take(n));
    if balanced(history) {
        let prefix = history.take(n);
        assert(releases(prefix) <= acquires(prefix));
    }
}

/// A history that gives back as many permits as it takes, in whatever order the
/// threads' operations fell, ends with the counter where it began.
pub proof fn law_round_trip(initial: nat, history: Seq<Step>)
    requires
        admissible(initial, history),
        acquires(history) == releases(history),
    ensures
        count_after(initial, history) == initial,
{
    lemma_conservation(initial, history);
}

/// A semaphore with `initial` permits can go through any number of acquires up to
/// `initial` followed by any number of releases, and then holds the initial count less
/// the acquires plus the releases. With `initial` acquires and `initial` releases the
/// counter passes through zero and is back at `initial`.
pub proof fn law_acquires_then_releases(initial: nat, taken: nat, given: nat)
    requires
        taken <= initial,
    ensures
        admissible(initial, acquires_then_releases(taken, given)),
        acquires(acquires_then_releases(taken, given)) == taken,
        releases(acquires_then_releases(taken, given)) == given,
        count_after(initial, acquires_then_releases(taken, given)) == initial - taken + given,
    decreases taken + given,
{
    let history = acquires_then_releases(taken, given);
    if given > 0 {
        assert(history.drop_last() =~= acquires_then_releases(taken, (given - 1) as nat));
        law_acquires_then_releases(initial, taken, (given - 1) as nat);
    } else if taken > 0 {
        assert(history.drop_last() =~= acquires_then_releases((taken - 1) as nat, 0));
        law_acquires_then_releases(initial, (taken - 1) as nat, 0);
    } else {
        assert(history.len() == 0);
    }
}

} // verus!
