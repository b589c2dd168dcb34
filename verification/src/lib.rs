//! Core of a terminal pomodoro timer: a bounded time value with saturating
//! arithmetic, a countdown clock, an action registry keyed by shortcut
//! characters, the running/stopped controller state machine, and the decision
//! table of the background ticker task. Everything here is verified; the
//! terminal and channel plumbing around it lives outside the library.
use vstd::prelude::*;

pub mod action;
pub mod clock;
pub mod command;
pub mod pomodoro;
pub mod render;
pub mod ticker;
pub mod time;

verus! {

/// The failures the timer core reports.
#[derive(Clone, Copy, Debug, PartialEq, Eq)]
pub enum TimerError {
    /// A clock component was outside its natural range at construction.
    InvalidTime,
    /// An increment or decrement would cross the floor or the ceiling;
    /// the value is left unchanged.
    Boundary,
    /// Two actions with the same shortcut were registered together.
    DuplicateShortcut,
}

} // verus!
