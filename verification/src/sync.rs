use vstd::prelude::*;

verus! {

/// Where a run stands. A run is linear and non-resumable: it acquires a
/// token, then reads and mutates under that token, and ends in `Done` or
/// `Failed`.
#[derive(Clone, Copy, Debug, PartialEq, Eq, Structural)]
pub enum SyncState {
    Start,
    TokenAcquired,
    Done,
    Failed,
}

/// What just happened: the outcome of the step the run was waiting on.
#[derive(Clone, Copy, Debug, PartialEq, Eq, Structural)]
pub enum SyncEvent {
    TokenOk,
    TokenFailed,
    ReadOk,
    ReadFailed,
    MutateOk,
    MutateFailed,
    Finish,
}

/// The run's transition relation. Every failure ends the run; reads and
/// mutations keep the token and may be repeated; an event a state does not
/// expect also ends the run, since nothing can be resumed.
pub open spec fn spec_sync_step(s: SyncState, e: SyncEvent) -> SyncState {
    match s {
        SyncState::Start => match e {
            SyncEvent::TokenOk => SyncState::TokenAcquired,
            _ => SyncState::Failed,
        },
        SyncState::TokenAcquired => match e {
            SyncEvent::ReadOk => SyncState::TokenAcquired,
            SyncEvent::MutateOk => SyncState::TokenAcquired,
            SyncEvent::Finish => SyncState::Done,
            _ => SyncState::Failed,
        },
        SyncState::Done => SyncState::Done,
        SyncState::Failed => SyncState::Failed,
    }
}

/// Advances the run by one observed outcome.
pub fn sync_step(s: SyncState, e: SyncEvent) -> (r: SyncState)
    ensures
        r == spec_sync_step(s, e),
{
    match s {
        SyncState::Start => match e {
            SyncEvent::TokenOk => SyncState::TokenAcquired,
            _ => SyncState::Failed,
        },
        SyncState::TokenAcquired => match e {
            SyncEvent::ReadOk => SyncState::TokenAcquired,
            SyncEvent::MutateOk => SyncState::TokenAcquired,
            SyncEvent::Finish => SyncState::Done,
            _ => SyncState::Failed,
        },
        SyncState::Done => SyncState::Done,
        SyncState::Failed => SyncState::Failed,
    }
}

/// A finished run stays finished: `Done` and `Failed` absorb every event,
/// so nothing runs after the run has ended.
pub proof fn lemma_sync_terminal_states(e: SyncEvent)
    ensures
        spec_sync_step(SyncState::Done, e) == SyncState::Done,
        spec_sync_step(SyncState::Failed, e) == SyncState::Failed,
{
}

/// Work happens only under a token: the only way to be in `TokenAcquired`
/// is to have acquired the token, or to have read or mutated successfully
/// while already holding it.
pub proof fn lemma_sync_work_needs_token(s: SyncState, e: SyncEvent)
    ensures
        spec_sync_step(s, e) == SyncState::TokenAcquired ==> (s == SyncState::Start && e
            == SyncEvent::TokenOk) || (s == SyncState::TokenAcquired && (e == SyncEvent::ReadOk
            || e == SyncEvent::MutateOk)),
{
}

} // verus!
