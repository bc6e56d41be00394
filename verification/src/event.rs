//! A one-shot readiness latch shared between threads.
//!
//! The latch starts lowered. Any holder may raise it, once and for all; every
//! thread that waits on it returns as soon as it is raised, whether it began to
//! wait before or after that moment.

use std::sync::{Arc, Condvar, Mutex, MutexGuard};
use vstd::prelude::*;

verus! {

#[verifier::external_type_specification]
#[verifier::external_body]
#[verifier::reject_recursive_types(T)]
pub struct ExMutex<T: ?Sized>(Mutex<T>);

#[verifier::external_type_specification]
#[verifier::external_body]
pub struct ExCondvar(Condvar);

#[verifier::external_type_specification]
#[verifier::external_body]
#[verifier::reject_recursive_types(T)]
pub struct ExMutexGuard<'a, T: ?Sized + 'a>(MutexGuard<'a, T>);

/// The flag that a held lock guards, for as long as the lock is held.
pub uninterp spec fn held_flag(guard: MutexGuard<bool>) -> bool;

/// Whether a held lock was taken from this mutex.
pub uninterp spec fn taken_from(guard: MutexGuard<bool>, mutex: Mutex<bool>) -> bool;

/// The flag around which a mutex was made. It is a fact of the mutex's
/// making and says nothing of what the mutex guards later.
pub uninterp spec fn made_with(mutex: Mutex<bool>) -> bool;

/// Whether a waiter that sees `raised` has to go on waiting.
pub open spec fn spec_must_wait(raised: bool) -> bool {
    !raised
}

/// Whether a waiter that sees `raised` has to go on waiting.
#[verifier::when_used_as_spec(spec_must_wait)]
pub fn must_wait(raised: bool) -> (pending: bool)
    ensures
        pending == spec_must_wait(raised),
{
    !raised
}

/// `Mutex::new`: a fresh mutex, made around the given flag.
#[verifier::external_body]
fn new_mutex(flag: bool) -> (mutex: Mutex<bool>)
    ensures
        made_with(mutex) == flag,
{
    Mutex::new(flag)
}

/// `Condvar::new`: a fresh condition variable.
#[verifier::external_body]
fn new_condvar() -> Condvar {
    Condvar::new()
}

/// `Mutex::lock`: blocks until the lock is held, and gives a guard taken from
/// the latch's own mutex. A poisoned lock is taken all the same, so the call
/// does not panic. What happens when a thread locks a mutex that it already
/// holds is left open by `std`: the latch's functions lock once and let go
/// before they return.
#[verifier::external_body]
fn lock_flag<'a>(cell: &'a (Mutex<bool>, Condvar)) -> (guard: MutexGuard<'a, bool>)
    ensures
        taken_from(guard, cell.0),
{
    cell.0.lock().unwrap_or_else(|poisoned| poisoned.into_inner())
}

/// `DerefMut::deref_mut` on the guard: stores `value` in the guarded flag.
#[verifier::external_body]
fn store_flag(guard: &mut MutexGuard<bool>, value: bool)
    ensures
        held_flag(*final(guard)) == value,
{
    **guard = value;
}

/// `Condvar::wait_while`: gives the lock up and sleeps until the guarded flag
/// no longer has to be waited for, then returns with the lock held again.
/// `None` where the lock was poisoned meanwhile. The guard has to come from
/// the latch's own mutex: a condition variable serves one mutex only.
#[verifier::external_body]
fn wait_until_raised<'a>(cell: &'a (Mutex<bool>, Condvar), guard: MutexGuard<'a, bool>) -> (held:
    Option<MutexGuard<'a, bool>>)
    requires
        taken_from(guard, cell.0),
    ensures
        held matches Some(guard) ==> !must_wait(held_flag(guard)),
{
    cell.1.wait_while(guard, |raised| must_wait(*raised)).ok()
}

/// `Arc::clone`: another pointer to the same latch.
#[verifier::external_body]
fn share(cell: &Arc<(Mutex<bool>, Condvar)>) -> (other: Arc<(Mutex<bool>, Condvar)>)
    ensures
        other == *cell,
{
    Arc::clone(cell)
}

/// `Condvar::notify_all`: wakes every thread that sleeps on the latch.
#[verifier::external_body]
fn wake_all(cell: &(Mutex<bool>, Condvar)) {
    cell.1.notify_all();
}

/// A one-shot broadcast flag. Clones share one latch.
pub struct NotifyFlag {
    cvar: Arc<(Mutex<bool>, Condvar)>,
}

impl Clone for NotifyFlag {
    /// Another handle on the same latch.
    fn clone(&self) -> (other: Self)
        ensures
            other == *self,
    {
        NotifyFlag { cvar: share(&self.cvar) }
    }
}

impl NotifyFlag {
    /// Whether the latch was made raised. A latch keeps this for good,
    /// whatever is done to it, and so do its clones.
    pub closed spec fn made_raised(&self) -> bool {
        made_with((*self.cvar).0)
    }

    /// A new latch, made lowered: nobody gets past it before it is raised.
    pub fn new() -> (flag: Self)
        ensures
            !flag.made_raised(),
    {
        Self { cvar: Arc::new((new_mutex(false), new_condvar())) }
    }

    /// Blocks until the latch has been raised by any of its holders, at any
    /// time, before or during the wait. It also returns where a holder died
    /// with the lock in hand, which leaves nothing to wait for.
    pub fn wait(&self) {
        let guard = lock_flag(&self.cvar);
        match wait_until_raised(&self.cvar, guard) {
            Some(held) => {
                assert(held_flag(held));
            },
            None => {},
        }
    }

    /// Raises the latch and releases all its waiters.
    pub fn notify_all(&self) {
        let mut guard = lock_flag(&self.cvar);
        store_flag(&mut guard, true);
        assert(!must_wait(held_flag(guard)));
        wake_all(&self.cvar);
    }
}

} // verus!
