use pomodoro::action::{new, Action, ActionKind, ActionRegistry, ResumeAction, StopAction};
use pomodoro::TimerError;

#[test]
fn default_registry_holds_the_four_actions() {
    let registry = new();
    assert_eq!(registry.count(), 4);
    assert_eq!(registry.action_at(0).get_shortcut(), 's');
    assert_eq!(registry.action_at(1).get_shortcut(), 'c');
    assert_eq!(registry.action_at(2).get_shortcut(), 'r');
    assert_eq!(registry.action_at(3).get_shortcut(), 'q');
    assert_eq!(registry.action_at(0).get_description(), "stop");
    assert_eq!(registry.action_at(1).get_description(), "continue");
    assert_eq!(registry.action_at(2).get_description(), "reset");
    assert_eq!(registry.action_at(3).get_description(), "quit");
}

#[test]
fn lookup_finds_each_shortcut() {
    let registry = new();
    assert_eq!(registry.lookup('s'), Some(ActionKind::Stop));
    assert_eq!(registry.lookup('c'), Some(ActionKind::Resume));
    assert_eq!(registry.lookup('r'), Some(ActionKind::Reset));
    assert_eq!(registry.lookup('q'), Some(ActionKind::Quit));
    assert_eq!(registry.lookup('x'), None);
    assert_eq!(registry.lookup('S'), None);
}

#[test]
fn duplicate_shortcut_is_a_construction_error() {
    let actions = vec![Action::Reset, Action::Quit, Action::Reset];
    match ActionRegistry::build(actions) {
        Err(e) => assert_eq!(e, TimerError::DuplicateShortcut),
        Ok(_) => panic!("a duplicate shortcut must be rejected"),
    }

    let ok = ActionRegistry::build(vec![Action::Quit, Action::Reset]).unwrap();
    assert_eq!(ok.count(), 2);
    assert_eq!(ok.lookup('q'), Some(ActionKind::Quit));
    assert_eq!(ok.lookup('s'), None);
}

#[test]
fn action_lines_carry_shortcut_and_description() {
    assert_eq!(Action::Stop(StopAction::new()).display_line(), "\u{2192} (s) stop");
    assert_eq!(Action::Resume(ResumeAction::new()).display_line(), "\u{2192} (c) continue");
    assert_eq!(Action::Reset.display_line(), "\u{2192} (r) reset");
    assert_eq!(Action::Quit.display_line(), "\u{2192} (q) quit");
}
