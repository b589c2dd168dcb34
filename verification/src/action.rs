//! The commands a keypress can select: stop, continue, reset and quit, each
//! bound to a single-character shortcut, held in an ordered registry whose
//! shortcuts are unique by construction.
use vstd::prelude::*;
use vstd::string::*;

use crate::TimerError;

verus! {

/// What an action asks the controller to do.
#[derive(Clone, Copy, Debug, PartialEq, Eq, Structural)]
pub enum ActionKind {
    Stop,
    Resume,
    Reset,
    Quit,
}

/// The stop command: suspends the countdown.
#[derive(Clone, Copy, Debug, PartialEq, Eq, Structural)]
pub struct StopAction {}

impl StopAction {
    pub fn new() -> (a: StopAction)
        ensures
            a == (StopAction {  }),
    {
        StopAction {  }
    }

    /// The key that selects this command.
    pub fn get_shortcut(&self) -> (c: char)
        ensures
            c == 's',
    {
        's'
    }

    /// The label shown beside the key.
    pub fn get_description(&self) -> (d: &'static str)
        ensures
            d@ == "stop"@,
    {
        "stop"
    }
}

/// The resume command: lets a suspended countdown continue.
#[derive(Clone, Copy, Debug, PartialEq, Eq, Structural)]
pub struct ResumeAction {}

impl ResumeAction {
    pub fn new() -> (a: ResumeAction)
        ensures
            a == (ResumeAction {  }),
    {
        ResumeAction {  }
    }

    /// The key that selects this command.
    pub fn get_shortcut(&self) -> (c: char)
        ensures
            c == 'c',
    {
        'c'
    }

    /// The label shown beside the key.
    pub fn get_description(&self) -> (d: &'static str)
        ensures
            d@ == "continue"@,
    {
        "continue"
    }
}

/// One registered command with its fixed shortcut and label.
#[derive(Clone, Copy, Debug, PartialEq, Eq, Structural)]
pub enum Action {
    Stop(StopAction),
    Resume(ResumeAction),
    Reset,
    Quit,
}

/// One line of the action list: an arrow, the shortcut in parentheses, and
/// the label, as in `-> (s) stop` with a real arrow character.
pub open spec fn action_line(shortcut: char, description: Seq<char>) -> Seq<char> {
    "\u{2192} ("@ + seq![shortcut] + ") "@ + description
}

/// Relies on String::push: appends exactly the one character at the end.
#[verifier::external_body]
fn push_char(out: &mut String, c: char)
    ensures
        final(out)@ == old(out)@.push(c),
{
    out.push(c);
}

impl Action {
    /// The key that selects this command.
    pub open spec fn spec_shortcut(&self) -> char {
        match self {
            Action::Stop(_) => 's',
            Action::Resume(_) => 'c',
            Action::Reset => 'r',
            Action::Quit => 'q',
        }
    }

    /// The label shown beside the key.
    pub open spec fn spec_description(&self) -> Seq<char> {
        match self {
            Action::Stop(_) => "stop"@,
            Action::Resume(_) => "continue"@,
            Action::Reset => "reset"@,
            Action::Quit => "quit"@,
        }
    }

    /// What the command asks the controller to do.
    pub open spec fn spec_kind(&self) -> ActionKind {
        match self {
            Action::Stop(_) => ActionKind::Stop,
            Action::Resume(_) => ActionKind::Resume,
            Action::Reset => ActionKind::Reset,
            Action::Quit => ActionKind::Quit,
        }
    }

    pub fn get_shortcut(&self) -> (c: char)
        ensures
            c == self.spec_shortcut(),
    {
        match self {
            Action::Stop(a) => a.get_shortcut(),
            Action::Resume(a) => a.get_shortcut(),
            Action::Reset => 'r',
            Action::Quit => 'q',
        }
    }

    pub fn get_description(&self) -> (d: &'static str)
        ensures
            d@ == self.spec_description(),
    {
        match self {
            Action::Stop(a) => a.get_description(),
            Action::Resume(a) => a.get_description(),
            Action::Reset => "reset",
            Action::Quit => "quit",
        }
    }

    pub fn kind(&self) -> (k: ActionKind)
        ensures
            k == self.spec_kind(),
    {
        match self {
            Action::Stop(_) => ActionKind::Stop,
            Action::Resume(_) => ActionKind::Resume,
            Action::Reset => ActionKind::Reset,
            Action::Quit => ActionKind::Quit,
        }
    }

    /// Formats the command's line of the on-screen action list.
    pub fn display_line(&self) -> (r: String)
        ensures
            r@ == action_line(self.spec_shortcut(), self.spec_description()),
    {
        let mut out = String::new();
        out.append("\u{2192} (");
        push_char(&mut out, self.get_shortcut());
        out.append(") ");
        out.append(self.get_description());
        proof {
            assert(out@ =~= action_line(self.spec_shortcut(), self.spec_description()));
        }
        out
    }
}

/// No two actions share a shortcut.
pub open spec fn unique_shortcuts(actions: Seq<Action>) -> bool {
    forall|i: int, j: int|
        0 <= i < j < actions.len() ==> #[trigger] actions[i].spec_shortcut()
            != #[trigger] actions[j].spec_shortcut()
}

/// The kind of the first action bound to the shortcut, if any.
pub open spec fn spec_lookup(actions: Seq<Action>, shortcut: char) -> Option<ActionKind>
    decreases actions.len(),
{
    if actions.len() == 0 {
        None
    } else if actions[0].spec_shortcut() == shortcut {
        Some(actions[0].spec_kind())
    } else {
        spec_lookup(actions.skip(1), shortcut)
    }
}

/// An ordered, fixed-at-construction sequence of actions with unique
/// shortcuts, dispatched by a linear scan where the first match wins.
#[derive(Debug)]
pub struct ActionRegistry {
    actions: Vec<Action>,
}

impl View for ActionRegistry {
    type V = Seq<Action>;

    closed spec fn view(&self) -> Seq<Action> {
        self.actions@
    }
}

impl ActionRegistry {
    /// The shortcuts are pairwise distinct.
    pub open spec fn wf(&self) -> bool {
        unique_shortcuts(self@)
    }

    /// Fixes the given actions in order; registering two actions with the
    /// same shortcut is a construction-time error.
    pub fn build(actions: Vec<Action>) -> (r: Result<ActionRegistry, TimerError>)
        ensures
            unique_shortcuts(actions@) ==> (r matches Ok(reg) && reg@ == actions@ && reg.wf()),
            !unique_shortcuts(actions@) ==> r == Err::<ActionRegistry, TimerError>(
                TimerError::DuplicateShortcut,
            ),
    {
        let n = actions.len();
        let mut i: usize = 0;
        while i < n
            invariant
                n == actions@.len(),
                i <= n,
                forall|p: int, q: int|
                    0 <= p < q < i ==> #[trigger] actions@[p].spec_shortcut()
                        != #[trigger] actions@[q].spec_shortcut(),
            decreases n - i,
        {
            let mut j: usize = 0;
            while j < i
                invariant
                    n == actions@.len(),
                    i < n,
                    j <= i,
                    forall|q: int|
                        0 <= q < j ==> #[trigger] actions@[q].spec_shortcut()
                            != actions@[i as int].spec_shortcut(),
                decreases i - j,
            {
                if actions[j].get_shortcut() == actions[i].get_shortcut() {
                    proof {
                        assert(!unique_shortcuts(actions@));
                    }
                    return Err(TimerError::DuplicateShortcut);
                }
                j = j + 1;
            }
            i = i + 1;
        }
        Ok(ActionRegistry { actions })
    }

    /// How many actions are registered.
    pub fn count(&self) -> (n: usize)
        ensures
            n == self@.len(),
    {
        self.actions.len()
    }

    /// The action at the given position.
    pub fn action_at(&self, i: usize) -> (a: &Action)
        requires
            i < self@.len(),
        ensures
            *a == self@[i as int],
    {
        &self.actions[i]
    }

    /// Finds the first action bound to the shortcut; an unbound shortcut
    /// finds nothing.
    pub fn lookup(&self, shortcut: char) -> (r: Option<ActionKind>)
        ensures
            r == spec_lookup(self@, shortcut),
    {
        let n = self.actions.len();
        let mut i: usize = 0;
        proof {
            assert(self@.skip(0) =~= self@);
        }
        while i < n
            invariant
                n == self@.len(),
                i <= n,
                spec_lookup(self@, shortcut) == spec_lookup(self@.skip(i as int), shortcut),
            decreases n - i,
        {
            proof {
                assert(self@.skip(i as int)[0] == self@[i as int]);
                assert(self@.skip(i as int).skip(1) =~= self@.skip(i as int + 1));
            }
            if self.actions[i].get_shortcut() == shortcut {
                return Some(self.actions[i].kind());
            }
            i = i + 1;
        }
        proof {
            assert(self@.skip(n as int) =~= Seq::<Action>::empty());
        }
        None
    }
}

/// The default actions in their fixed order: stop, continue, reset, quit.
pub open spec fn default_actions() -> Seq<Action> {
    seq![
        Action::Stop(StopAction {  }),
        Action::Resume(ResumeAction {  }),
        Action::Reset,
        Action::Quit,
    ]
}

/// Builds the default registry: stop, continue, reset and quit, in that
/// order, each under its own shortcut.
pub fn new() -> (r: ActionRegistry)
    ensures
        r@ == default_actions(),
        r.wf(),
{
    let mut actions: Vec<Action> = Vec::new();
    actions.push(Action::Stop(StopAction::new()));
    actions.push(Action::Resume(ResumeAction::new()));
    actions.push(Action::Reset);
    actions.push(Action::Quit);
    proof {
        assert(actions@ =~= default_actions());
        assert(unique_shortcuts(actions@));
    }
    ActionRegistry { actions }
}

} // verus!
