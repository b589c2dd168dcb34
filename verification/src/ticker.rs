//! The decision table of the background ticker task.
//!
//! The task itself sleeps, races the sleep against a stop signal, waits for
//! resume signals and watches for closed channels — all outside this
//! library. What is verified here is every decision it takes: given where
//! the task stands and what it just observed, which state it moves to and
//! whether it delivers a tick now. The caller drives the loop: in `Ticking`
//! it races a one-second sleep against the stop channel, in
//! `AwaitingResume` it blocks on the resume channel, in `DrainingStop` it
//! polls the stop channel once to discard a signal that arrived while
//! suspended, and in `Terminated` it exits.
use vstd::prelude::*;

verus! {

/// Where the ticker task stands.
#[derive(Clone, Copy, Debug, PartialEq, Eq, Structural)]
pub enum TickerState {
    /// Racing a one-second sleep against an incoming stop signal.
    Ticking,
    /// Suspended: blocked until a resume signal arrives, indefinitely.
    AwaitingResume,
    /// Just resumed: discarding at most one stop signal that arrived while
    /// suspended, so a stale stop does not suspend the ticker again at once.
    DrainingStop,
    /// Finished for good: a closed channel ended the task, and it does not
    /// resurrect.
    Terminated,
}

/// What the ticker observed at its current suspension point.
#[derive(Clone, Copy, Debug, PartialEq, Eq, Structural)]
pub enum TickerEvent {
    /// The one-second sleep ran out before any stop signal arrived.
    SleepElapsed,
    /// A stop signal arrived.
    StopReceived,
    /// No stop signal was pending when the stop channel was polled.
    StopEmpty,
    /// The stop channel is closed.
    StopClosed,
    /// A resume signal arrived.
    ResumeReceived,
    /// The resume channel is closed.
    ResumeClosed,
}

/// The state the ticker moves to on one observation. A stop — or the stop
/// channel closing — interrupts ticking and suspends the task; a resume
/// lets it drain a stale stop and tick again; a closed resume channel, or a
/// stop channel found closed while draining, terminates the task; an
/// observation the current state cannot produce changes nothing.
pub open spec fn ticker_next(state: TickerState, event: TickerEvent) -> TickerState {
    match (state, event) {
        (TickerState::Ticking, TickerEvent::SleepElapsed) => TickerState::Ticking,
        (TickerState::Ticking, TickerEvent::StopReceived) => TickerState::AwaitingResume,
        (TickerState::Ticking, TickerEvent::StopClosed) => TickerState::AwaitingResume,
        (TickerState::AwaitingResume, TickerEvent::ResumeReceived) => TickerState::DrainingStop,
        (TickerState::AwaitingResume, TickerEvent::ResumeClosed) => TickerState::Terminated,
        (TickerState::DrainingStop, TickerEvent::StopReceived) => TickerState::Ticking,
        (TickerState::DrainingStop, TickerEvent::StopEmpty) => TickerState::Ticking,
        (TickerState::DrainingStop, TickerEvent::StopClosed) => TickerState::Terminated,
        (_, _) => state,
    }
}

/// Whether a tick is delivered now: exactly when a full second of sleep ran
/// out while the ticker was ticking.
pub open spec fn ticker_emits(state: TickerState, event: TickerEvent) -> bool {
    state == TickerState::Ticking && event == TickerEvent::SleepElapsed
}

/// One decision of the ticker task: the state it moves to, and whether it
/// delivers a tick now.
pub fn ticker_step(state: TickerState, event: TickerEvent) -> (r: (TickerState, bool))
    ensures
        r.0 == ticker_next(state, event),
        r.1 == ticker_emits(state, event),
{
    match (state, event) {
        (TickerState::Ticking, TickerEvent::SleepElapsed) => (TickerState::Ticking, true),
        (TickerState::Ticking, TickerEvent::StopReceived) => (TickerState::AwaitingResume, false),
        (TickerState::Ticking, TickerEvent::StopClosed) => (TickerState::AwaitingResume, false),
        (TickerState::AwaitingResume, TickerEvent::ResumeReceived) => (
            TickerState::DrainingStop,
            false,
        ),
        (TickerState::AwaitingResume, TickerEvent::ResumeClosed) => (
            TickerState::Terminated,
            false,
        ),
        (TickerState::DrainingStop, TickerEvent::StopReceived) => (TickerState::Ticking, false),
        (TickerState::DrainingStop, TickerEvent::StopEmpty) => (TickerState::Ticking, false),
        (TickerState::DrainingStop, TickerEvent::StopClosed) => (TickerState::Terminated, false),
        (_, _) => (state, false),
    }
}

} // verus!
