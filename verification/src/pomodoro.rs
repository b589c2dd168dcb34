//! The timer controller: owns the countdown clock and the action registry,
//! and turns one event at a time — a tick or a keypress — into a state
//! transition and at most one outgoing signal.
//!
//! Every transition is fixed by the spec-level `step` and `step_signal`
//! functions, and the laws at the bottom of the module are proved of them:
//! stop halts ticking, resume restores it, reset restores the default
//! duration, and an unknown key changes nothing.
use vstd::prelude::*;

use crate::action::{self, Action, ActionKind, ActionRegistry};
use crate::action::{action_line, default_actions, spec_lookup, unique_shortcuts};
use crate::clock::{Clock, MAX_SECONDS};
use crate::command::{Signal, TermAction};
use crate::render::clock_text;

verus! {

/// Whether the controller is counting down or paused.
#[derive(Clone, Copy, Debug, PartialEq, Eq, Structural)]
pub enum Mode {
    Running,
    Stopped,
}

/// The controller as the contracts see it: the remaining seconds, the mode,
/// and the registered actions.
pub ghost struct ControllerState {
    pub total: int,
    pub mode: Mode,
    pub actions: Seq<Action>,
}

/// The remaining seconds lie within a day and the shortcuts are unique.
pub open spec fn wf_state(s: ControllerState) -> bool {
    0 <= s.total <= MAX_SECONDS as int && unique_shortcuts(s.actions)
}

/// The default duration in seconds: one minute.
pub open spec fn default_total() -> int {
    60
}

/// The state after one event.
///
/// A tick while running removes one second; a clock that thereby reaches
/// zero, or was already there, stops autonomously. A tick while stopped is a
/// no-op. A key is dispatched through the registry: stop and resume switch
/// the mode and are idempotent, reset restores the default duration without
/// touching the mode, quit changes no state, and an unknown key is ignored.
pub open spec fn step(s: ControllerState, event: TermAction) -> ControllerState {
    match event {
        TermAction::ClockTick => if s.mode == Mode::Running {
            if s.total > 0 {
                ControllerState {
                    total: s.total - 1,
                    mode: if s.total == 1 {
                        Mode::Stopped
                    } else {
                        Mode::Running
                    },
                    ..s
                }
            } else {
                ControllerState { mode: Mode::Stopped, ..s }
            }
        } else {
            s
        },
        TermAction::KeyboardInput(c) => match spec_lookup(s.actions, c) {
            Some(ActionKind::Stop) => ControllerState { mode: Mode::Stopped, ..s },
            Some(ActionKind::Resume) => ControllerState { mode: Mode::Running, ..s },
            Some(ActionKind::Reset) => ControllerState { total: default_total(), ..s },
            Some(ActionKind::Quit) => s,
            None => s,
        },
    }
}

/// The signal one event makes the controller emit: suspend the ticker when
/// the countdown halts, resume it when the countdown restarts, quit on the
/// quit command, and nothing otherwise. Stop and resume emit only on an
/// actual mode change, so a repeated command never queues a second signal.
pub open spec fn step_signal(s: ControllerState, event: TermAction) -> Option<Signal> {
    match event {
        TermAction::ClockTick => if s.mode == Mode::Running && s.total <= 1 {
            Some(Signal::StopTicker)
        } else {
            None
        },
        TermAction::KeyboardInput(c) => match spec_lookup(s.actions, c) {
            Some(ActionKind::Stop) => if s.mode == Mode::Running {
                Some(Signal::StopTicker)
            } else {
                None
            },
            Some(ActionKind::Resume) => if s.mode == Mode::Stopped {
                Some(Signal::ResumeTicker)
            } else {
                None
            },
            Some(ActionKind::Reset) => None,
            Some(ActionKind::Quit) => Some(Signal::Quit),
            None => None,
        },
    }
}

/// The timer controller: one countdown clock, the running/stopped mode, and
/// the fixed action registry.
pub struct Pomodoro {
    clock: Clock,
    mode: Mode,
    actions: ActionRegistry,
}

impl View for Pomodoro {
    type V = ControllerState;

    closed spec fn view(&self) -> ControllerState {
        ControllerState { total: self.clock.as_seconds(), mode: self.mode, actions: self.actions@ }
    }
}

impl Pomodoro {
    pub open spec fn wf(&self) -> bool {
        wf_state(self@)
    }

    /// Starts running at the default duration with the default actions.
    pub fn new() -> (p: Pomodoro)
        ensures
            p.wf(),
            p@.total == default_total(),
            p@.mode == Mode::Running,
            p@.actions == default_actions(),
    {
        Pomodoro { clock: Clock::build(0, 1, 0), mode: Mode::Running, actions: action::new() }
    }

    /// Restores the default duration; the mode and the actions stay as they
    /// are.
    pub fn reset(&mut self)
        ensures
            final(self)@ == (ControllerState { total: default_total(), ..old(self)@ }),
            old(self).wf() ==> final(self).wf(),
    {
        let _ = self.clock.reset(0, 1, 0);
    }

    /// Delivers one tick: while running, one second leaves the clock, and a
    /// clock that reaches zero — or was already there — stops autonomously
    /// and asks the caller to suspend the ticker. While stopped a tick is a
    /// no-op.
    pub fn tick(&mut self) -> (signal: Option<Signal>)
        requires
            old(self).wf(),
        ensures
            final(self).wf(),
            final(self)@ == step(old(self)@, TermAction::ClockTick),
            signal == step_signal(old(self)@, TermAction::ClockTick),
    {
        match self.mode {
            Mode::Stopped => None,
            Mode::Running => match self.clock.decrement_second() {
                Ok(_) => {
                    if self.clock.total_seconds() == 0 {
                        self.mode = Mode::Stopped;
                        Some(Signal::StopTicker)
                    } else {
                        None
                    }
                },
                Err(_) => {
                    self.mode = Mode::Stopped;
                    Some(Signal::StopTicker)
                },
            },
        }
    }

    /// Applies one event: a tick advances the countdown as `tick` does; a
    /// keypress is dispatched through the registry, and an unknown key is a
    /// silently ignored no-op.
    pub fn execute(&mut self, term_action: TermAction) -> (signal: Option<Signal>)
        requires
            old(self).wf(),
        ensures
            final(self).wf(),
            final(self)@ == step(old(self)@, term_action),
            signal == step_signal(old(self)@, term_action),
    {
        match term_action {
            TermAction::ClockTick => self.tick(),
            TermAction::KeyboardInput(c) => match self.actions.lookup(c) {
                Some(ActionKind::Stop) => match self.mode {
                    Mode::Running => {
                        self.mode = Mode::Stopped;
                        Some(Signal::StopTicker)
                    },
                    Mode::Stopped => None,
                },
                Some(ActionKind::Resume) => match self.mode {
                    Mode::Stopped => {
                        self.mode = Mode::Running;
                        Some(Signal::ResumeTicker)
                    },
                    Mode::Running => None,
                },
                Some(ActionKind::Reset) => {
                    self.reset();
                    None
                },
                Some(ActionKind::Quit) => Some(Signal::Quit),
                None => None,
            },
        }
    }

    /// Whether the controller is counting down or paused.
    pub fn current_mode(&self) -> (m: Mode)
        ensures
            m == self@.mode,
    {
        self.mode
    }

    /// The seconds left on the clock.
    pub fn remaining_seconds(&self) -> (n: u64)
        ensures
            n as int == self@.total,
    {
        self.clock.total_seconds()
    }

    /// The textual representation, in fixed order: the clock's `HH:MM:SS`
    /// first, then one line per registered action.
    pub fn render(&self) -> (lines: Vec<String>)
        requires
            self.wf(),
        ensures
            lines@.len() == 1 + self@.actions.len(),
            lines@[0]@ == clock_text(self@.total),
            forall|j: int|
                1 <= j < lines@.len() ==> (#[trigger] lines@[j])@ == action_line(
                    self@.actions[j - 1].spec_shortcut(),
                    self@.actions[j - 1].spec_description(),
                ),
    {
        let mut lines: Vec<String> = Vec::new();
        lines.push(self.clock.render());
        let n = self.actions.count();
        let mut i: usize = 0;
        while i < n
            invariant
                n == self@.actions.len(),
                i <= n,
                lines@.len() == 1 + i,
                lines@[0]@ == clock_text(self@.total),
                self.wf(),
                forall|j: int|
                    1 <= j < lines@.len() ==> (#[trigger] lines@[j])@ == action_line(
                        self@.actions[j - 1].spec_shortcut(),
                        self@.actions[j - 1].spec_description(),
                    ),
            decreases n - i,
        {
            let a = self.actions.action_at(i);
            lines.push(a.display_line());
            i = i + 1;
        }
        lines
    }
}

/// Law: a stop command while running moves the controller to `Stopped`, and
/// a tick then changes neither the clock nor the mode and emits nothing.
pub proof fn lemma_stop_halts_ticks(s: ControllerState, c: char)
    requires
        wf_state(s),
        spec_lookup(s.actions, c) == Some(ActionKind::Stop),
        s.mode == Mode::Running,
    ensures
        step(s, TermAction::KeyboardInput(c)).mode == Mode::Stopped,
        step_signal(s, TermAction::KeyboardInput(c)) == Some(Signal::StopTicker),
        step(step(s, TermAction::KeyboardInput(c)), TermAction::ClockTick) == step(
            s,
            TermAction::KeyboardInput(c),
        ),
        step_signal(step(s, TermAction::KeyboardInput(c)), TermAction::ClockTick) == None::<
            Signal,
        >,
{
}

/// Law: a resume command while stopped moves the controller back to
/// `Running` without touching the clock, and a tick then takes one second
/// off the clock again (down to the floor at zero, where it stays).
pub proof fn lemma_resume_restores_ticking(s: ControllerState, c: char)
    requires
        wf_state(s),
        spec_lookup(s.actions, c) == Some(ActionKind::Resume),
        s.mode == Mode::Stopped,
    ensures
        step(s, TermAction::KeyboardInput(c)).mode == Mode::Running,
        step(s, TermAction::KeyboardInput(c)).total == s.total,
        step_signal(s, TermAction::KeyboardInput(c)) == Some(Signal::ResumeTicker),
        s.total > 0 ==> step(step(s, TermAction::KeyboardInput(c)), TermAction::ClockTick).total
            == s.total - 1,
        s.total == 0 ==> step(step(s, TermAction::KeyboardInput(c)), TermAction::ClockTick).total
            == 0,
{
}

/// Law: a reset command restores the default duration whatever the current
/// mode and value, leaves the mode and the actions alone, and emits nothing.
pub proof fn lemma_reset_restores_default(s: ControllerState, c: char)
    requires
        wf_state(s),
        spec_lookup(s.actions, c) == Some(ActionKind::Reset),
    ensures
        step(s, TermAction::KeyboardInput(c)) == (ControllerState {
            total: default_total(),
            ..s
        }),
        step_signal(s, TermAction::KeyboardInput(c)) == None::<Signal>,
{
}

/// Law: a key bound to no action leaves the whole state unchanged and emits
/// nothing.
pub proof fn lemma_unknown_key_ignored(s: ControllerState, c: char)
    requires
        wf_state(s),
        spec_lookup(s.actions, c) == None::<ActionKind>,
    ensures
        step(s, TermAction::KeyboardInput(c)) == s,
        step_signal(s, TermAction::KeyboardInput(c)) == None::<Signal>,
{
}

} // verus!
