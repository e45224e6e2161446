//! The standard library's mutex and condition variable, as far as the semaphore uses
//! them. Nothing in this file is proved: each contract states what the standard
//! library documents of the call.

use std::sync::{Condvar, Mutex, MutexGuard};
use std::time::Duration;
use vstd::prelude::*;
use crate::permits::{can_acquire, is_exhausted};

verus! {

#[verifier::external_type_specification]
#[verifier::external_body]
#[verifier::reject_recursive_types(T)]
pub struct ExMutex<T: ?Sized>(Mutex<T>);

#[verifier::external_type_specification]
#[verifier::external_body]
#[verifier::reject_recursive_types(T)]
pub struct ExMutexGuard<'a, T: ?Sized + 'a>(MutexGuard<'a, T>);

#[verifier::external_type_specification]
#[verifier::external_body]
pub struct ExCondvar(Condvar);

/// The counter that a held lock gives access to. While the guard lives no other thread
/// can reach the counter, so the value is the guard's own: it changes only through
/// the guard.
pub uninterp spec fn held(guard: MutexGuard<usize>) -> usize;

/// The count that a mutex was made with. It is a fact about the making and stays with
/// the mutex: it says nothing of the counter that a later lock finds.
pub uninterp spec fn minted(mutex: Mutex<usize>) -> usize;

/// `Condvar::new`: a condition variable with no waiter. Nothing is believed of it.
pub assume_specification[ Condvar::new ]() -> Condvar;

/// `Mutex::new`: an unlocked mutex around `count`. Believed without proof: that the
/// mutex was made with the count handed in.
#[verifier::external_body]
pub(crate) fn fresh_lock(count: usize) -> (mutex: Mutex<usize>)
    ensures
        minted(mutex) == count,
{
    Mutex::new(count)
}

/// `Condvar::notify_one`: wakes one thread that waits on the condition variable, if
/// there is one. Believed without proof: that the call returns normally.
#[verifier::external_body]
pub(crate) fn notify_one(cvar: &Condvar)
    opens_invariants none
    no_unwind
{
    cvar.notify_one();
}

/// `Mutex::lock`: blocks until the lock is free and returns its guard. The standard
/// library reports a lock whose holder unwound as poisoned; the call then panics, so
/// a broken lock is fatal to the caller. Nothing is believed of the counter found.
/// The calling thread must not hold the guard already.
#[verifier::external_body]
pub(crate) fn lock(mutex: &Mutex<usize>) -> (guard: MutexGuard<'_, usize>) {
    mutex.lock().unwrap()
}

/// `Mutex::lock` for giving a permit back, which also runs when a guard is dropped and
/// so must not unwind: the guard is taken out of a poisoned lock's error as well.
/// Believed without proof: that the call returns normally. The calling thread must
/// not hold the guard already.
#[verifier::external_body]
pub(crate) fn lock_even_poisoned(mutex: &Mutex<usize>) -> (guard: MutexGuard<'_, usize>)
    opens_invariants none
    no_unwind
{
    match mutex.lock() {
        Ok(guard) => guard,
        Err(poisoned) => poisoned.into_inner(),
    }
}

/// `Deref` of `MutexGuard`: reads the counter under the lock. Believed without proof:
/// that the value read is the one the guard holds.
#[verifier::external_body]
pub(crate) fn load(guard: &MutexGuard<usize>) -> (count: usize)
    ensures
        count == held(*guard),
    opens_invariants none
    no_unwind
{
    **guard
}

/// `DerefMut` of `MutexGuard`: stores `count` as the counter under the lock. Believed
/// without proof: that the guard then holds `count`.
#[verifier::external_body]
pub(crate) fn store(guard: &mut MutexGuard<usize>, count: usize)
    ensures
        held(*final(guard)) == count,
    opens_invariants none
    no_unwind
{
    **guard = count;
}

/// `Condvar::wait_while` with the condition that no permit is free. The condition is
/// tested before any wait; as often as it finds the counter at zero, the call gives
/// the lock up, sleeps until woken, and takes the lock again. Believed without proof:
/// that a guard which comes back holds a counter above zero, and that a guard which
/// goes in with a free permit comes back as it went in. The call may never return, and
/// it panics where the lock is poisoned.
#[verifier::external_body]
pub(crate) fn wait_while_exhausted<'a>(cvar: &Condvar, guard: MutexGuard<'a, usize>) -> (woken:
    MutexGuard<'a, usize>)
    ensures
        can_acquire(held(woken) as nat),
        can_acquire(held(guard) as nat) ==> held(woken) == held(guard),
{
    cvar.wait_while(guard, |count| is_exhausted(*count)).unwrap()
}

/// `Condvar::wait_timeout_while` with the condition that no permit is free: as
/// `wait_while_exhausted`, but for at most `dur` in all, however often the thread is
/// woken. Believed without proof: that a guard which goes in with a free permit comes
/// back as it went in. Whether a permit is free after a wait is for the caller to
/// read. The call panics where the lock is poisoned.
#[verifier::external_body]
pub(crate) fn wait_timeout_while_exhausted<'a>(
    cvar: &Condvar,
    guard: MutexGuard<'a, usize>,
    dur: Duration,
) -> (woken: MutexGuard<'a, usize>)
    ensures
        can_acquire(held(guard) as nat) ==> held(woken) == held(guard),
{
    cvar.wait_timeout_while(guard, dur, |count| is_exhausted(*count)).unwrap().0
}

} // verus!
