//! The semaphore and its scope-bound guard.

use std::sync::{Condvar, Mutex, MutexGuard};
use std::time::Duration;
use vstd::prelude::*;
use crate::permits::{after_acquire, after_release, can_acquire, give, try_take};
use crate::sync::{
    fresh_lock, held, load, lock, lock_even_poisoned, minted, notify_one, store,
    wait_timeout_while_exhausted, wait_while_exhausted,
};

verus! {

/// A counter of free permits, shared by reference among any number of threads. Every
/// read and write of the counter happens under the one lock.
pub struct Semaphore {
    lock: Mutex<usize>,
    cvar: Condvar,
}

/// A permit taken from a semaphore, given back when the guard is dropped.
pub struct SemaphoreGuard<'a> {
    semaphore: &'a Semaphore,
}

/// Takes one permit from the counter under a held lock, if one is free, and says
/// whether it did. A counter at zero is left as it is.
pub(crate) fn claim(guard: &mut MutexGuard<usize>) -> (taken: bool)
    ensures
        taken == can_acquire(held(*old(guard)) as nat),
        taken ==> held(*final(guard)) as nat == after_acquire(held(*old(guard)) as nat),
        !taken ==> held(*final(guard)) == held(*old(guard)),
{
    match try_take(load(guard)) {
        Some(rest) => {
            store(guard, rest);
            true
        },
        None => false,
    }
}

/// The blocking acquire under a held lock: waits while no permit is free and takes
/// one. A permit that is free at the start is the one taken; after a wait, the permit
/// taken is one that the waking thread found.
pub(crate) fn take_waiting<'a>(cvar: &Condvar, guard: MutexGuard<'a, usize>) -> (after: MutexGuard<
    'a,
    usize,
>)
    ensures
        held(after) < usize::MAX,
        can_acquire(held(guard) as nat) ==> held(after) as nat == after_acquire(
            held(guard) as nat,
        ),
{
    let mut woken = wait_while_exhausted(cvar, guard);
    let _ = claim(&mut woken);
    woken
}

/// The bounded acquire under a held lock: waits for at most `dur` while no permit is
/// free, and then takes one if one is free. With a free permit at the start it
/// succeeds and takes that one; a failure leaves the counter at the zero it found.
pub(crate) fn take_within<'a>(cvar: &Condvar, guard: MutexGuard<'a, usize>, dur: Duration) -> (out:
    (bool, MutexGuard<'a, usize>))
    ensures
        can_acquire(held(guard) as nat) ==> out.0 && held(out.1) as nat == after_acquire(
            held(guard) as nat,
        ),
        !out.0 ==> !can_acquire(held(guard) as nat) && held(out.1) == held(guard),
        out.0 ==> held(out.1) < usize::MAX,
{
    let mut woken = wait_timeout_while_exhausted(cvar, guard, dur);
    let taken = claim(&mut woken);
    (taken, woken)
}

/// Gives one permit back to the counter under a held lock.
pub(crate) fn restore(guard: &mut MutexGuard<usize>)
    ensures
        held(*old(guard)) < usize::MAX ==> held(*final(guard)) as nat == after_release(
            held(*old(guard)) as nat,
        ),
        held(*old(guard)) == usize::MAX ==> held(*final(guard)) == usize::MAX,
    opens_invariants none
    no_unwind
{
    let grown: usize = give(load(guard));
    store(guard, grown);
}

impl Semaphore {
    /// The count that the semaphore was made with. Releases are not held to it.
    pub closed spec fn initial(self) -> usize {
        minted(self.lock)
    }

    /// A semaphore with `count` free permits and nobody waiting. Zero is a valid count.
    pub fn new(count: usize) -> (made: Semaphore)
        ensures
            made.initial() == count,
    {
        Semaphore { lock: fresh_lock(count), cvar: Condvar::new() }
    }

    /// Blocks until a permit is free and takes it. The wait is unbounded, and the
    /// counter is read again after every wake-up before the permit is taken.
    pub fn acquire(&self) {
        let guard = lock(&self.lock);
        let _after = take_waiting(&self.cvar, guard);
    }

    /// Waits for a free permit for at most `dur` and takes it; `false` when the time
    /// ran out with the counter still at zero, which is then left as it is.
    pub fn acquire_timeout(&self, dur: Duration) -> bool {
        let guard = lock(&self.lock);
        take_within(&self.cvar, guard, dur).0
    }

    /// Takes a permit if one is free at this instant; never waits.
    pub fn try_acquire(&self) -> bool {
        let mut guard = lock(&self.lock);
        claim(&mut guard)
    }

    /// Gives one permit back and wakes one waiter, if there is any. The counter is
    /// not held to the count the semaphore was made with.
    pub fn release(&self)
        opens_invariants none
        no_unwind
    {
        {
            let mut guard = lock_even_poisoned(&self.lock);
            restore(&mut guard);
        }
        notify_one(&self.cvar);
    }

    /// The counter at the instant of the call. Another thread may change it before
    /// the caller looks at the value.
    pub fn get_value(&self) -> usize {
        let guard = lock(&self.lock);
        load(&guard)
    }
}

impl<'a> SemaphoreGuard<'a> {
    /// The semaphore that the permit was taken from and goes back to.
    pub closed spec fn source(self) -> Semaphore {
        *self.semaphore
    }

    /// Blocks as `Semaphore::acquire` does, and returns the guard of the permit taken.
    pub fn acquire(semaphore: &'a Semaphore) -> (permit: Self)
        ensures
            permit.source() == *semaphore,
    {
        semaphore.acquire();
        SemaphoreGuard { semaphore }
    }
}

impl<'a> Drop for SemaphoreGuard<'a> {
    /// Gives the permit back to the semaphore it was taken from.
    fn drop(&mut self)
        opens_invariants none
        no_unwind
    {
        self.semaphore.release();
    }
}

} // verus!
