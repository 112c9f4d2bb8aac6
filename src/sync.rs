//! The parts of `std::sync` that a cell is built from. Verus sees these types
//! as opaque: nothing is assumed about what a lock holds, only that the calls
//! exist and hand back values of these types.

use std::sync::{Condvar, LockResult, Mutex, MutexGuard, PoisonError, WaitTimeoutResult};
use std::time::Duration;
use vstd::prelude::*;

use crate::slot::{is_empty, CompletionError};

verus! {

#[verifier::external_type_specification]
#[verifier::external_body]
#[verifier::reject_recursive_types(T)]
pub struct ExMutex<T: ?Sized>(Mutex<T>);

#[verifier::external_type_specification]
#[verifier::external_body]
#[verifier::reject_recursive_types(T)]
pub struct ExMutexGuard<'a, T: ?Sized + 'a>(MutexGuard<'a, T>);

#[verifier::external_type_specification]
#[verifier::external_body]
#[verifier::reject_recursive_types(T)]
pub struct ExPoisonError<T>(PoisonError<T>);

#[verifier::external_type_specification]
#[verifier::external_body]
pub struct ExCondvar(Condvar);

#[verifier::external_type_specification]
#[verifier::external_body]
pub struct ExWaitTimeoutResult(WaitTimeoutResult);

/// Relies on `Mutex::new`: a lock that holds `t`.
pub assume_specification<T>[ Mutex::<T>::new ](t: T) -> Mutex<T>;

/// Relies on `Condvar::new`: a condition variable with no waiters.
pub assume_specification[ Condvar::new ]() -> Condvar;

/// Relies on `Condvar::notify_all`: wakes every thread blocked on `cv`.
pub assume_specification[ Condvar::notify_all ](cv: &Condvar);

/// Relies on `Mutex::lock`: blocks until the lock is held, and reports a
/// poisoned lock as an error.
#[verifier::external_body]
pub(crate) fn lock<T>(m: &Mutex<T>) -> LockResult<MutexGuard<'_, T>> {
    m.lock()
}

/// Relies on `MutexGuard`'s `DerefMut`: the value that the held lock guards.
#[verifier::external_body]
pub(crate) fn guarded<'a, 'b, T>(g: &'a mut MutexGuard<'b, T>) -> &'a mut T {
    &mut **g
}

/// Relies on `Condvar::wait_timeout_while`: releases the lock and blocks while
/// the slot is empty, for at most `d` in all (spurious wakeups do not restart
/// the budget), then holds the lock again; reports a poisoned lock as an error.
#[verifier::external_body]
pub(crate) fn wait_while_empty<'a, T>(
    cv: &Condvar,
    g: MutexGuard<'a, Option<T>>,
    d: Duration,
) -> LockResult<(MutexGuard<'a, Option<T>>, WaitTimeoutResult)> {
    cv.wait_timeout_while(g, d, |s| is_empty(s))
}

/// A poisoned lock leaves the guarded slot of unknown integrity: every
/// operation that finds one reports `Deadlock`.
impl<T> From<PoisonError<T>> for CompletionError {
    fn from(_e: PoisonError<T>) -> (r: Self)
        ensures
            r == CompletionError::Deadlock,
    {
        CompletionError::Deadlock
    }
}

impl<T> vstd::std_specs::convert::FromSpecImpl<PoisonError<T>> for CompletionError {
    open spec fn obeys_from_spec() -> bool {
        true
    }

    open spec fn from_spec(v: PoisonError<T>) -> Self {
        CompletionError::Deadlock
    }
}

} // verus!
