//! The life of one pooled connection as the adapter's three operations see
//! it. The pool drives it; the adapter's verdicts (a probe's outcome, the
//! passive broken flag) decide which way it goes.

use crate::error::ManagerError;
use vstd::prelude::*;

verus! {

/// Where a connection stands.
#[derive(Clone, Copy, PartialEq, Eq, Structural, Debug)]
pub enum ConnectionState {
    /// Just produced by `connect`, not yet handed out.
    Created,
    /// Held by exactly one caller.
    InUse,
    /// Back in the pool, waiting for the next checkout.
    Idle,
    /// Dropped for good; only a fresh `connect` replaces it.
    Discarded,
}

/// What can happen to a connection.
#[derive(Clone, Copy, PartialEq, Eq, Structural, Debug)]
pub enum LifecycleEvent {
    /// The pool hands the connection to a caller.
    CheckedOut,
    /// The caller gives it back; `broken` is the passive check's answer.
    Returned { broken: bool },
    /// The active probe ran on the idle connection.
    Probed { passed: bool },
}

/// The transition taken by `event` in `state`, or `None` where the event
/// cannot happen there.
pub open spec fn next_spec(state: ConnectionState, event: LifecycleEvent) -> Option<ConnectionState> {
    match (state, event) {
        (ConnectionState::Created, LifecycleEvent::CheckedOut) => Some(ConnectionState::InUse),
        (ConnectionState::Idle, LifecycleEvent::CheckedOut) => Some(ConnectionState::InUse),
        (ConnectionState::InUse, LifecycleEvent::Returned { broken }) => Some(
            if broken { ConnectionState::Discarded } else { ConnectionState::Idle },
        ),
        (ConnectionState::Idle, LifecycleEvent::Probed { passed }) => Some(
            if passed { ConnectionState::Idle } else { ConnectionState::Discarded },
        ),
        _ => None,
    }
}

/// The state after `events` in turn from `state`, or `None` as soon as one
/// of them cannot happen.
pub open spec fn run_spec(state: ConnectionState, events: Seq<LifecycleEvent>) -> Option<ConnectionState>
    decreases events.len(),
{
    if events.len() == 0 {
        Some(state)
    } else {
        match next_spec(state, events[0]) {
            Some(s) => run_spec(s, events.subrange(1, events.len() as int)),
            None => None,
        }
    }
}

impl ConnectionState {
    /// Takes `event` from this state.
    pub fn next(self, event: LifecycleEvent) -> (r: Option<ConnectionState>)
        ensures
            r == next_spec(self, event),
            self is Discarded ==> r is None,
            r == Some(ConnectionState::InUse) ==> event is CheckedOut && (self is Created
                || self is Idle),
    {
        match (self, event) {
            (ConnectionState::Created, LifecycleEvent::CheckedOut) => Some(ConnectionState::InUse),
            (ConnectionState::Idle, LifecycleEvent::CheckedOut) => Some(ConnectionState::InUse),
            (ConnectionState::InUse, LifecycleEvent::Returned { broken }) => {
                if broken {
                    Some(ConnectionState::Discarded)
                } else {
                    Some(ConnectionState::Idle)
                }
            },
            (ConnectionState::Idle, LifecycleEvent::Probed { passed }) => {
                if passed {
                    Some(ConnectionState::Idle)
                } else {
                    Some(ConnectionState::Discarded)
                }
            },
            _ => None,
        }
    }
}

/// The event a probe verdict of `RedisConnectionManager::is_valid` stands for.
pub fn probe_event(verdict: &Result<(), ManagerError>) -> (r: LifecycleEvent)
    ensures
        r == (LifecycleEvent::Probed { passed: verdict is Ok }),
{
    LifecycleEvent::Probed { passed: verdict.is_ok() }
}

/// The event of handing a connection back, with the passive check's answer.
pub fn return_event(broken: bool) -> (r: LifecycleEvent)
    ensures
        r == (LifecycleEvent::Returned { broken }),
{
    LifecycleEvent::Returned { broken }
}

/// A discarded connection stays out of service: no sequence of events
/// brings it back.
pub proof fn lemma_discarded_is_terminal(events: Seq<LifecycleEvent>)
    requires
        events.len() > 0,
    ensures
        run_spec(ConnectionState::Discarded, events) is None,
{
}

/// Running two sequences of events one after the other is running their
/// concatenation.
pub proof fn lemma_run_concat(state: ConnectionState, first: Seq<LifecycleEvent>, second: Seq<LifecycleEvent>)
    ensures
        run_spec(state, first + second) == match run_spec(state, first) {
            Some(s) => run_spec(s, second),
            None => None,
        },
    decreases first.len(),
{
    if first.len() > 0 {
        let s = next_spec(state, first[0]);
        assert((first + second).subrange(1, (first + second).len() as int) =~= first.subrange(
            1,
            first.len() as int,
        ) + second);
        if let Some(t) = s {
            lemma_run_concat(t, first.subrange(1, first.len() as int), second);
        }
    } else {
        assert(first + second =~= second);
    }
}

/// Once a connection has been discarded, nothing that happens afterwards
/// returns it to service: any continuation of the run is undefined.
pub proof fn lemma_no_return_from_discard(state: ConnectionState, before: Seq<LifecycleEvent>, after: Seq<LifecycleEvent>)
    requires
        run_spec(state, before) == Some(ConnectionState::Discarded),
        after.len() > 0,
    ensures
        run_spec(state, before + after) is None,
{
    lemma_run_concat(state, before, after);
    lemma_discarded_is_terminal(after);
}

/// A failed probe or a broken flag on return always ends in discard.
pub proof fn lemma_failure_discards(state: ConnectionState, event: LifecycleEvent)
    requires
        event == (LifecycleEvent::Probed { passed: false }) || event == (LifecycleEvent::Returned {
            broken: true,
        }),
        next_spec(state, event) is Some,
    ensures
        next_spec(state, event) == Some(ConnectionState::Discarded),
{
}

} // verus!
