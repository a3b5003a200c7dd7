//! The decisions that the generated operations take between two exchanges
//! with the database. The exchanges themselves are made elsewhere; what is
//! decided here is what follows from their results.

use vstd::prelude::*;

verus! {

/// Why a delete failed.
pub enum DeleteError<E> {
    /// The statement ran and no row had the id.
    RowNotFound,
    /// The database failed; the failure is handed on as it came.
    Storage(E),
}

/// What a delete comes to, given what executing its statement gave: the
/// number of rows affected, or the failure of the database.
pub open spec fn delete_result<E>(executed: Result<u64, E>) -> Result<(), DeleteError<E>> {
    match executed {
        Err(e) => Err(DeleteError::Storage(e)),
        Ok(rows) => if rows == 0 {
            Err(DeleteError::RowNotFound)
        } else {
            Ok(())
        },
    }
}

/// What a delete comes to: a failure of the database is handed on, and a
/// statement that affected no row is a failure too.
pub fn delete_outcome<E>(executed: Result<u64, E>) -> (out: Result<(), DeleteError<E>>)
    ensures
        out == delete_result(executed),
{
    match executed {
        Err(e) => Err(DeleteError::Storage(e)),
        Ok(rows) => {
            if rows == 0 {
                Err(DeleteError::RowNotFound)
            } else {
                Ok(())
            }
        },
    }
}

/// Where an operation that persists a change and then applies it in memory
/// stands.
#[derive(Clone, Copy, Debug, PartialEq, Eq, Structural)]
pub enum WriteState {
    /// Nothing was done yet.
    Idle,
    /// The statement was sent; its result is awaited.
    Persisting,
    /// The change is persisted and applied.
    Applied,
    /// The statement failed; the value in memory is as it was.
    Failed,
}

/// What happened.
#[derive(Clone, Copy, Debug, PartialEq, Eq, Structural)]
pub enum WriteEvent {
    /// The operation was called.
    Called,
    /// The statement succeeded.
    Persisted,
    /// The statement failed.
    Rejected,
}

/// What to do next.
#[derive(Clone, Copy, Debug, PartialEq, Eq, Structural)]
pub enum WriteAction {
    /// Send the statement.
    Persist,
    /// Set the value in memory and report success.
    Apply,
    /// Report the failure and leave the value in memory alone.
    Abort,
    /// The event does not belong to this state: do nothing.
    Ignore,
}

/// The state and the action that follow from a state and an event.
pub open spec fn write_next(state: WriteState, event: WriteEvent) -> (WriteState, WriteAction) {
    match (state, event) {
        (WriteState::Idle, WriteEvent::Called) => (WriteState::Persisting, WriteAction::Persist),
        (WriteState::Persisting, WriteEvent::Persisted) => (
            WriteState::Applied,
            WriteAction::Apply,
        ),
        (WriteState::Persisting, WriteEvent::Rejected) => (WriteState::Failed, WriteAction::Abort),
        _ => (state, WriteAction::Ignore),
    }
}

/// One step of a patch or a setter: the statement is sent first, and the
/// value in memory is set only after the statement has succeeded.
pub fn write_step(state: WriteState, event: WriteEvent) -> (out: (WriteState, WriteAction))
    ensures
        out == write_next(state, event),
{
    match state {
        WriteState::Idle => match event {
            WriteEvent::Called => (WriteState::Persisting, WriteAction::Persist),
            _ => (state, WriteAction::Ignore),
        },
        WriteState::Persisting => match event {
            WriteEvent::Persisted => (WriteState::Applied, WriteAction::Apply),
            WriteEvent::Rejected => (WriteState::Failed, WriteAction::Abort),
            WriteEvent::Called => (state, WriteAction::Ignore),
        },
        _ => (state, WriteAction::Ignore),
    }
}

/// The state after the events, taken one by one from `state`.
pub open spec fn write_run(state: WriteState, events: Seq<WriteEvent>) -> WriteState
    decreases events.len(),
{
    if events.len() == 0 {
        state
    } else {
        write_next(write_run(state, events.drop_last()), events.last()).0
    }
}

/// The value in memory is set only on the success of the statement: the
/// action `Apply` follows from no other state and event.
pub proof fn lemma_apply_only_after_persist(state: WriteState, event: WriteEvent)
    ensures
        write_next(state, event).1 == WriteAction::Apply <==> (state == WriteState::Persisting
            && event == WriteEvent::Persisted),
        write_next(state, event).0 == WriteState::Applied && state != WriteState::Applied
            ==> write_next(state, event).1 == WriteAction::Apply,
{
}

/// Whatever happens, an operation that has reached `Applied` has seen the
/// call and then the success of its statement, and one that saw its
/// statement fail never reaches `Applied`.
pub proof fn lemma_applied_means_persisted(events: Seq<WriteEvent>)
    ensures
        write_run(WriteState::Idle, events) == WriteState::Applied ==> events.contains(
            WriteEvent::Persisted,
        ) && events.contains(WriteEvent::Called),
        write_run(WriteState::Idle, events) == WriteState::Persisting ==> events.contains(
            WriteEvent::Called,
        ),
    decreases events.len(),
{
    if events.len() > 0 {
        let before = events.drop_last();
        lemma_applied_means_persisted(before);
        assert(events[events.len() - 1] == events.last());
        assert forall|e: WriteEvent| before.contains(e) implies events.contains(e) by {
            let i = choose|i: int| 0 <= i < before.len() && before[i] == e;
            assert(events[i] == e);
        }
    }
}

} // verus!
