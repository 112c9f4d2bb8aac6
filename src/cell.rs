//! The shared cell: an atomic flag for lock-free checks, a lock that guards
//! the slot, and a condition variable that wakes blocked readers.

use std::sync::atomic::{AtomicBool, Ordering};
use std::sync::{Arc, Condvar, Mutex};
use std::time::Duration;
use vstd::prelude::*;

use crate::slot::{fill_once, peek, wait_outcome, CompletionError, PollState};
use crate::sync::{guarded, lock, wait_while_empty};

verus! {

/// The state that every handle of one cell shares. The flag is set, under the
/// lock, only after the slot has been filled, so a set flag means the value
/// can be read.
#[verifier::reject_recursive_types(T)]
struct Shared<T> {
    complete: AtomicBool,
    slot: Mutex<Option<T>>,
    signal: Condvar,
}

/// A handle on a write-once, read-many cell. Clones of a handle share one
/// cell; it is freed when the last handle is dropped.
#[derive(Clone)]
#[verifier::reject_recursive_types(T)]
pub struct CompletableFuture<T: Clone + Send + Sync> {
    inner: Arc<Shared<T>>,
}

impl<T: Clone + Send + Sync> CompletableFuture<T> {
    /// An empty cell.
    pub fn new() -> (r: Self) {
        CompletableFuture {
            inner: Arc::new(
                Shared {
                    complete: AtomicBool::new(false),
                    slot: Mutex::new(None),
                    signal: Condvar::new(),
                },
            ),
        }
    }

    /// A cell that is already completed with `value`.
    pub fn completed(value: T) -> (r: Self) {
        CompletableFuture {
            inner: Arc::new(
                Shared {
                    complete: AtomicBool::new(true),
                    slot: Mutex::new(Some(value)),
                    signal: Condvar::new(),
                },
            ),
        }
    }

    /// Completes the cell with `value` and wakes every blocked reader. Only
    /// the first completion of a cell succeeds; every later one reports
    /// `AlreadyComplete`. A poisoned lock is reported as `Deadlock`.
    pub fn complete(&mut self, value: T) -> (r: Result<(), CompletionError>)
        ensures
            *final(self) == *old(self),
            r is Err ==> r == Err::<(), CompletionError>(CompletionError::AlreadyComplete)
                || r == Err::<(), CompletionError>(CompletionError::Deadlock),
    {
        let shared: &Shared<T> = &*self.inner;
        if Self::check_atomic(&shared.complete) {
            return Err(CompletionError::AlreadyComplete);
        }
        let mut guard = match lock(&shared.slot) {
            Ok(g) => g,
            Err(e) => return Err(CompletionError::from(e)),
        };
        let r = fill_once(guarded(&mut guard), value);
        if r.is_ok() {
            shared.complete.store(true, Ordering::Release);
            shared.signal.notify_all();
        }
        r
    }

    /// Blocks until the cell is completed, for at most `duration`, and
    /// returns a copy of its value. Reports `TimedOut` if the cell is still
    /// empty when the time is up, and `Deadlock` on a poisoned lock.
    pub fn wait_timeout(&self, duration: Duration) -> (r: Result<T, CompletionError>)
        ensures
            r is Err ==> r == Err::<T, CompletionError>(CompletionError::TimedOut)
                || r == Err::<T, CompletionError>(CompletionError::Deadlock),
    {
        let shared: &Shared<T> = &*self.inner;
        let guard = match lock(&shared.slot) {
            Ok(g) => g,
            Err(e) => return Err(CompletionError::from(e)),
        };
        let (mut guard, _) = match wait_while_empty(&shared.signal, guard, duration) {
            Ok(w) => w,
            Err(e) => return Err(CompletionError::from(e)),
        };
        wait_outcome(guarded(&mut guard))
    }

    /// Whether the cell has been completed, read from the flag without
    /// taking the lock.
    pub fn is_complete(&self) -> (r: bool) {
        Self::check_atomic(&self.inner.complete)
    }

    fn check_atomic(complete: &AtomicBool) -> (r: bool) {
        complete.load(Ordering::Acquire)
    }

    /// Reads the cell without blocking on its completion: a copy of the
    /// value once the cell is completed, `NotReady` before. Takes the lock
    /// only once the flag shows the cell completed; a poisoned lock is
    /// reported as `Deadlock`.
    pub fn poll(&mut self) -> (r: Result<PollState<T>, CompletionError>)
        ensures
            *final(self) == *old(self),
            r is Err ==> r == Err::<PollState<T>, CompletionError>(CompletionError::Deadlock),
    {
        let shared: &Shared<T> = &*self.inner;
        if !Self::check_atomic(&shared.complete) {
            return Ok(PollState::NotReady);
        }
        let mut guard = match lock(&shared.slot) {
            Ok(g) => g,
            Err(e) => return Err(CompletionError::from(e)),
        };
        Ok(peek(guarded(&mut guard)))
    }
}

} // verus!
