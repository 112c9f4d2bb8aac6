//! The state that a completable cell guards: `None` while it is empty,
//! `Some(v)` once it has been completed with `v`. Every operation of the
//! cell decides its outcome from this slot while holding the cell's lock.

use vstd::prelude::*;

verus! {

/// Why an operation on a cell did not produce its value.
#[derive(Debug, Clone, Copy, PartialEq, Eq, Structural)]
pub enum CompletionError {
    /// The lock was poisoned: a holder terminated while holding it.
    Deadlock,
    /// The cell had already been completed.
    AlreadyComplete,
    /// A bounded wait elapsed before the cell was completed.
    TimedOut,
}

/// What a non-blocking read of a cell finds.
#[derive(Debug, Clone, PartialEq, Eq)]
pub enum PollState<T> {
    /// The cell is completed; this is a copy of its value.
    Ready(T),
    /// The cell is not completed yet.
    NotReady,
}

/// The slot after `complete(v)`: filled with `v` if it was empty, unchanged
/// otherwise (the first completion wins).
pub open spec fn completed_with<T>(s: Option<T>, v: T) -> Option<T> {
    match s {
        Some(_) => s,
        None => Some(v),
    }
}

/// What `complete` reports on a slot.
pub open spec fn complete_result<T>(s: Option<T>) -> Result<(), CompletionError> {
    match s {
        Some(_) => Err(CompletionError::AlreadyComplete),
        None => Ok(()),
    }
}

/// The slot after `complete` has been called with each of `vs` in turn, in
/// the order in which the calls took the lock.
pub open spec fn completed_with_all<T>(s: Option<T>, vs: Seq<T>) -> Option<T>
    decreases vs.len(),
{
    if vs.len() == 0 {
        s
    } else {
        completed_with_all(completed_with(s, vs[0]), vs.drop_first())
    }
}

/// Stores `value` in an empty slot; leaves a filled slot as it was and
/// reports `AlreadyComplete`.
pub fn fill_once<T>(slot: &mut Option<T>, value: T) -> (r: Result<(), CompletionError>)
    ensures
        *final(slot) == completed_with(*old(slot), value),
        r == complete_result(*old(slot)),
{
    if slot.is_some() {
        Err(CompletionError::AlreadyComplete)
    } else {
        *slot = Some(value);
        Ok(())
    }
}

/// Whether the slot is still empty.
pub fn is_empty<T>(slot: &Option<T>) -> (r: bool)
    ensures
        r == slot.is_none(),
{
    slot.is_none()
}

/// Reads the slot without waiting: a copy of the value if it is filled.
pub fn peek<T: Clone>(slot: &Option<T>) -> (r: PollState<T>)
    ensures
        slot.is_none() <==> r is NotReady,
        slot.is_some() ==> r is Ready && cloned(slot.unwrap(), r->Ready_0),
{
    match slot {
        Some(v) => PollState::Ready(v.clone()),
        None => PollState::NotReady,
    }
}

/// The outcome of a bounded wait, decided from the slot once the wait has
/// ended: a copy of the value if the slot was filled in time, `TimedOut`
/// if it is still empty.
pub fn wait_outcome<T: Clone>(slot: &Option<T>) -> (r: Result<T, CompletionError>)
    ensures
        slot.is_none() <==> r == Err::<T, CompletionError>(CompletionError::TimedOut),
        slot.is_some() ==> r is Ok && cloned(slot.unwrap(), r->Ok_0),
{
    match slot {
        Some(v) => Ok(v.clone()),
        None => Err(CompletionError::TimedOut),
    }
}

/// A completed slot stays completed with the same value, whatever
/// completions follow.
pub proof fn lemma_completion_is_permanent<T>(s: Option<T>, vs: Seq<T>)
    requires
        s.is_some(),
    ensures
        completed_with_all(s, vs) == s,
        forall|i: int|
            0 <= i <= vs.len() ==> #[trigger] completed_with_all(s, vs.take(i)) == s,
    decreases vs.len(),
{
    if vs.len() > 0 {
        lemma_completion_is_permanent(s, vs.drop_first());
    }
    assert forall|i: int| 0 <= i <= vs.len() implies #[trigger] completed_with_all(
        s,
        vs.take(i),
    ) == s by {
        if i > 0 {
            lemma_completion_is_permanent(s, vs.take(i).drop_first());
        }
    }
}

/// Of any sequence of completions of an empty slot, the first succeeds, every
/// later one reports `AlreadyComplete`, and the slot ends up holding the
/// first value.
pub proof fn lemma_first_completion_wins<T>(vs: Seq<T>)
    requires
        vs.len() > 0,
    ensures
        completed_with_all(None, vs) == Some(vs[0]),
        complete_result(completed_with_all(None, vs.take(0))) == Ok::<(), CompletionError>(()),
        forall|i: int|
            1 <= i < vs.len() ==> #[trigger] complete_result(completed_with_all(None, vs.take(i)))
                == Err::<(), CompletionError>(CompletionError::AlreadyComplete),
{
    lemma_completion_is_permanent(Some(vs[0]), vs.drop_first());
    assert forall|i: int| 1 <= i < vs.len() implies #[trigger] complete_result(
        completed_with_all(None, vs.take(i)),
    ) == Err::<(), CompletionError>(CompletionError::AlreadyComplete) by {
        assert(vs.take(i).drop_first() =~= vs.drop_first().take(i - 1));
        assert(completed_with_all(Some(vs[0]), vs.drop_first().take(i - 1)) == Some(vs[0]));
    }
}

/// A cell created completed with `v` is in the state that an empty cell
/// reaches by a successful `complete(v)`.
pub proof fn lemma_precompleted_equivalence<T>(v: T)
    ensures
        complete_result(None::<T>) == Ok::<(), CompletionError>(()),
        completed_with(None, v) == Some(v),
{
}

} // verus!
