//! The periodic refresh of the offset, as a state machine.
//!
//! The program around the library owns the timer and the fetch. It feeds
//! each tick and each finished fetch to [`step`] and carries out the action
//! that comes back.

use vstd::prelude::*;
use crate::calendar::CalendarTime;
use crate::source::FetchError;

verus! {

/// Where the refresher stands.
#[derive(Clone, Copy, Debug, PartialEq, Eq, Structural)]
pub enum RefresherState {
    /// Waiting for the next tick.
    Idle,
    /// A fetch is in flight.
    Fetching,
}

/// What happened.
#[derive(Clone, Copy, Debug, PartialEq, Eq)]
pub enum RefresherEvent {
    /// The period has passed.
    Tick,
    /// The fetch in flight has ended, with a true time or a failure.
    FetchFinished(Result<CalendarTime, FetchError>),
}

/// What the program is to do next.
#[derive(Clone, Copy, Debug, PartialEq, Eq)]
pub enum RefresherAction {
    /// Start a fetch from the time source.
    StartFetch,
    /// Record this true time in the cache, as observed now.
    Record(CalendarTime),
    /// Log a warning and leave the cache as it is.
    Warn(FetchError),
    /// Nothing.
    Wait,
}

/// The state after `event` in `state`.
pub open spec fn next_state(state: RefresherState, event: RefresherEvent) -> RefresherState {
    match (state, event) {
        (RefresherState::Idle, RefresherEvent::Tick) => RefresherState::Fetching,
        (RefresherState::Fetching, RefresherEvent::FetchFinished(_)) => RefresherState::Idle,
        _ => state,
    }
}

/// The action that `event` in `state` calls for. A tick while a fetch is in
/// flight and a result that no fetch is waiting for call for nothing: there
/// is no retry, no backoff and no counter, and the next tick is the only
/// other attempt.
pub open spec fn action_for(state: RefresherState, event: RefresherEvent) -> RefresherAction {
    match (state, event) {
        (RefresherState::Idle, RefresherEvent::Tick) => RefresherAction::StartFetch,
        (RefresherState::Fetching, RefresherEvent::FetchFinished(Ok(time))) => {
            RefresherAction::Record(time)
        },
        (RefresherState::Fetching, RefresherEvent::FetchFinished(Err(error))) => {
            RefresherAction::Warn(error)
        },
        _ => RefresherAction::Wait,
    }
}

/// The refresher at start: idle.
pub fn start() -> (state: RefresherState)
    ensures
        state == RefresherState::Idle,
{
    RefresherState::Idle
}

/// One step of the refresher.
pub fn step(state: RefresherState, event: RefresherEvent) -> (r: (RefresherState, RefresherAction))
    ensures
        r.0 == next_state(state, event),
        r.1 == action_for(state, event),
{
    match state {
        RefresherState::Idle => match event {
            RefresherEvent::Tick => (RefresherState::Fetching, RefresherAction::StartFetch),
            RefresherEvent::FetchFinished(_) => (RefresherState::Idle, RefresherAction::Wait),
        },
        RefresherState::Fetching => match event {
            RefresherEvent::Tick => (RefresherState::Fetching, RefresherAction::Wait),
            RefresherEvent::FetchFinished(Ok(time)) => (
                RefresherState::Idle,
                RefresherAction::Record(time),
            ),
            RefresherEvent::FetchFinished(Err(error)) => (
                RefresherState::Idle,
                RefresherAction::Warn(error),
            ),
        },
    }
}

/// The cache is written only for a fetch that succeeded, and then with the
/// time that the fetch brought: a failed fetch, a tick and a stray result
/// never call for a write, so the last offset stays in effect.
pub proof fn lemma_only_success_records(state: RefresherState, event: RefresherEvent)
    ensures
        action_for(state, event) is Record <==> (state == RefresherState::Fetching
            && event matches RefresherEvent::FetchFinished(Ok(_))),
        forall|time: CalendarTime|
            action_for(state, event) == RefresherAction::Record(time) ==> event
                == RefresherEvent::FetchFinished(Ok(time)),
{
}

/// A tick followed by the end of its fetch brings the refresher back to
/// idle, whether the fetch succeeded or failed.
pub proof fn lemma_cycle_returns_to_idle(outcome: Result<CalendarTime, FetchError>)
    ensures
        next_state(RefresherState::Idle, RefresherEvent::Tick) == RefresherState::Fetching,
        next_state(RefresherState::Fetching, RefresherEvent::FetchFinished(outcome))
            == RefresherState::Idle,
{
}

} // verus!
