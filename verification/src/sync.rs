//! The lock and the condition variable that guard shared state, from
//! `parking_lot`.
//!
//! Nothing here is proved: each function makes one call into `parking_lot`,
//! and what another thread may have done to a guarded value before the lock
//! is taken cannot be said, so the functions promise nothing about the values
//! they read. What is known of such a value is what its type always
//! guarantees.
//!
//! `parking_lot` panics only where one condition variable is waited on with
//! two different mutexes at once, and each condition variable here lives
//! beside the one mutex it is used with. [`lock`] does not return while the
//! calling thread itself holds the lock; within this crate a lock is never
//! taken while a guard is alive.

use vstd::prelude::*;
use std::time::Duration;
use parking_lot::Condvar;
use parking_lot::Mutex;
use parking_lot::MutexGuard;

verus! {

/// `lock_api::Mutex`, which `parking_lot::Mutex` is an alias of.
#[verifier::external_type_specification]
#[verifier::external_body]
#[verifier::reject_recursive_types(R)]
#[verifier::reject_recursive_types(T)]
pub struct ExMutex<R, T: ?Sized>(parking_lot::lock_api::Mutex<R, T>);

/// `parking_lot::RawMutex`, the lock inside a `parking_lot::Mutex`.
#[verifier::external_type_specification]
#[verifier::external_body]
pub struct ExRawMutex(parking_lot::RawMutex);

/// `lock_api::Condvar`, which `parking_lot::Condvar` is an alias of.
#[verifier::external_type_specification]
#[verifier::external_body]
#[verifier::reject_recursive_types(C)]
pub struct ExCondvar<C>(parking_lot::lock_api::Condvar<C>);

/// `parking_lot::RawCondvar`, the queue inside a `parking_lot::Condvar`.
#[verifier::external_type_specification]
#[verifier::external_body]
pub struct ExRawCondvar(parking_lot::RawCondvar);

/// A held lock: `parking_lot::MutexGuard`, kept out of Verus's sight. The
/// guard's own declaration is bound by the trait `lock_api::RawMutex`, of
/// which Verus cannot be told, so the guard has to stand behind a struct of
/// this crate. The lock is given up when the value is dropped.
#[verifier::external_body]
#[verifier::reject_recursive_types(T)]
pub(crate) struct Locked<'a, T> {
    guard: MutexGuard<'a, T>,
}

/// The span of time that `Duration::from_secs` makes of a number of whole
/// seconds.
pub uninterp spec fn seconds_as_duration(secs: u64) -> Duration;

/// `Duration::from_secs`: the span of that many whole seconds, which depends
/// on the number alone.
pub assume_specification[ Duration::from_secs ](secs: u64) -> (duration: Duration)
    ensures
        duration == seconds_as_duration(secs),
;

/// `Mutex::new`: a mutex that guards `value`.
#[verifier::external_body]
pub(crate) fn new_mutex<T>(value: T) -> (mutex: Mutex<T>)
{
    Mutex::new(value)
}

/// `Condvar::new`: a condition variable that nobody waits on.
#[verifier::external_body]
pub(crate) fn new_condvar() -> (condvar: Condvar)
{
    Condvar::new()
}

/// `Mutex::lock`: blocks until the lock is free and takes it.
#[verifier::external_body]
pub(crate) fn lock<'a, T>(mutex: &'a Mutex<T>) -> (held: Locked<'a, T>)
{
    Locked { guard: mutex.lock() }
}

/// Reads the guarded value through `MutexGuard::deref`.
#[verifier::external_body]
pub(crate) fn load<'a, T: Copy>(held: &Locked<'a, T>) -> (value: T)
{
    *held.guard
}

/// Replaces the guarded value through `MutexGuard::deref_mut`.
#[verifier::external_body]
pub(crate) fn store<'a, T: Copy>(held: &mut Locked<'a, T>, value: T)
{
    *held.guard = value;
}

/// `Condvar::wait_for`: gives up the lock, sleeps until the condition
/// variable is notified or the timeout has passed, and takes the lock again.
/// Which of the two ended the sleep is not handed on.
#[verifier::external_body]
pub(crate) fn wait_for<'a, T>(condvar: &Condvar, held: &mut Locked<'a, T>, timeout: Duration)
{
    condvar.wait_for(&mut held.guard, timeout);
}

/// `Condvar::notify_one`: wakes one thread that waits on the condition
/// variable, if there is one.
#[verifier::external_body]
pub(crate) fn notify_one(condvar: &Condvar)
{
    condvar.notify_one();
}

/// Gives up the lock by dropping the guard.
#[verifier::external_body]
pub(crate) fn unlock<'a, T>(held: Locked<'a, T>)
{
    drop(held)
}

} // verus!
