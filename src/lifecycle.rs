use vstd::prelude::*;

verus! {

/// Where a listener (the mock one or the admin one) stands.
#[derive(Debug, Clone, Copy, PartialEq, Eq, Structural)]
pub enum ListenerPhase {
    Starting,
    Serving,
    ShuttingDown,
    Stopped,
    Failed,
}

/// What can happen to a listener.
#[derive(Debug, Clone, Copy, PartialEq, Eq, Structural)]
pub enum ListenerEvent {
    /// Its address was bound.
    Bound,
    /// Its address could not be bound (invalid, or in use).
    BindFailed,
    /// Shutdown was asked for: stop accepting, drain what is in flight.
    ShutdownRequested,
    /// The listener's serving loop ended without error.
    Finished,
    /// The transport failed beyond recovery.
    TransportFailed,
}

/// The overall state of a run with two listeners.
#[derive(Debug, Clone, Copy, PartialEq, Eq, Structural)]
pub enum RunOutcome {
    Running,
    Succeeded,
    Failed,
}

pub open spec fn phase_after(p: ListenerPhase, e: ListenerEvent) -> ListenerPhase {
    match (p, e) {
        (ListenerPhase::Starting, ListenerEvent::Bound) => ListenerPhase::Serving,
        (ListenerPhase::Starting, ListenerEvent::BindFailed) => ListenerPhase::Failed,
        (ListenerPhase::Serving, ListenerEvent::ShutdownRequested) => ListenerPhase::ShuttingDown,
        (ListenerPhase::Serving, ListenerEvent::Finished) => ListenerPhase::Stopped,
        (ListenerPhase::ShuttingDown, ListenerEvent::Finished) => ListenerPhase::Stopped,
        (ListenerPhase::Serving, ListenerEvent::TransportFailed) => ListenerPhase::Failed,
        (ListenerPhase::ShuttingDown, ListenerEvent::TransportFailed) => ListenerPhase::Failed,
        _ => p,
    }
}

pub open spec fn outcome_of(mock: ListenerPhase, admin: ListenerPhase) -> RunOutcome {
    if mock == ListenerPhase::Failed || admin == ListenerPhase::Failed {
        RunOutcome::Failed
    } else if mock == ListenerPhase::Stopped && admin == ListenerPhase::Stopped {
        RunOutcome::Succeeded
    } else {
        RunOutcome::Running
    }
}

/// The phase a listener is in after `e` happens in phase `p`. Events that do
/// not apply to a phase leave it as it is; `Stopped` and `Failed` are final.
pub fn next_phase(p: ListenerPhase, e: ListenerEvent) -> (r: ListenerPhase)
    ensures
        r == phase_after(p, e),
{
    match (p, e) {
        (ListenerPhase::Starting, ListenerEvent::Bound) => ListenerPhase::Serving,
        (ListenerPhase::Starting, ListenerEvent::BindFailed) => ListenerPhase::Failed,
        (ListenerPhase::Serving, ListenerEvent::ShutdownRequested) => ListenerPhase::ShuttingDown,
        (ListenerPhase::Serving, ListenerEvent::Finished) => ListenerPhase::Stopped,
        (ListenerPhase::ShuttingDown, ListenerEvent::Finished) => ListenerPhase::Stopped,
        (ListenerPhase::Serving, ListenerEvent::TransportFailed) => ListenerPhase::Failed,
        (ListenerPhase::ShuttingDown, ListenerEvent::TransportFailed) => ListenerPhase::Failed,
        _ => p,
    }
}

/// The state of the whole run: failed as soon as either listener failed,
/// succeeded once both stopped cleanly, running otherwise.
pub fn run_outcome(mock: ListenerPhase, admin: ListenerPhase) -> (r: RunOutcome)
    ensures
        r == outcome_of(mock, admin),
{
    if mock == ListenerPhase::Failed || admin == ListenerPhase::Failed {
        RunOutcome::Failed
    } else if mock == ListenerPhase::Stopped && admin == ListenerPhase::Stopped {
        RunOutcome::Succeeded
    } else {
        RunOutcome::Running
    }
}

/// A failed listener fails the run, whatever the other one does.
pub proof fn lemma_failure_not_masked(mock: ListenerPhase, admin: ListenerPhase)
    requires
        mock == ListenerPhase::Failed || admin == ListenerPhase::Failed,
    ensures
        outcome_of(mock, admin) == RunOutcome::Failed,
{
}

} // verus!
