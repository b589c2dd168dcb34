//! The events the controller consumes and the signals it emits.
use vstd::prelude::*;

verus! {

/// One event delivered to the controller loop: a one-second tick from the
/// ticker task, or a key pressed on the keyboard.
#[derive(Clone, Copy, Debug, PartialEq, Eq, Structural)]
pub enum TermAction {
    ClockTick,
    KeyboardInput(char),
}

/// A cross-task notification the controller asks its caller to deliver:
/// suspend the ticker, resume it, or end the process.
#[derive(Clone, Copy, Debug, PartialEq, Eq, Structural)]
pub enum Signal {
    StopTicker,
    ResumeTicker,
    Quit,
}

} // verus!
