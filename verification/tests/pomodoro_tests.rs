use pomodoro::command::{Signal, TermAction};
use pomodoro::pomodoro::{Mode, Pomodoro};

#[test]
fn starts_running_at_one_minute() {
    let p = Pomodoro::new();
    assert_eq!(p.remaining_seconds(), 60);
    assert_eq!(p.current_mode(), Mode::Running);
    assert_eq!(p.render()[0], "00:01:00");
}

#[test]
fn tick_counts_down_while_running() {
    let mut p = Pomodoro::new();
    assert_eq!(p.execute(TermAction::ClockTick), None);
    assert_eq!(p.remaining_seconds(), 59);
    assert_eq!(p.render()[0], "00:00:59");
}

#[test]
fn stop_halts_ticks_until_resume() {
    let mut p = Pomodoro::new();
    assert_eq!(p.execute(TermAction::KeyboardInput('s')), Some(Signal::StopTicker));
    assert_eq!(p.current_mode(), Mode::Stopped);

    assert_eq!(p.execute(TermAction::ClockTick), None);
    assert_eq!(p.execute(TermAction::ClockTick), None);
    assert_eq!(p.remaining_seconds(), 60);

    // A second stop is idempotent and queues no second signal.
    assert_eq!(p.execute(TermAction::KeyboardInput('s')), None);
    assert_eq!(p.current_mode(), Mode::Stopped);
}

#[test]
fn resume_restores_ticking() {
    let mut p = Pomodoro::new();
    assert_eq!(p.execute(TermAction::KeyboardInput('s')), Some(Signal::StopTicker));
    assert_eq!(p.execute(TermAction::KeyboardInput('c')), Some(Signal::ResumeTicker));
    assert_eq!(p.current_mode(), Mode::Running);

    assert_eq!(p.execute(TermAction::ClockTick), None);
    assert_eq!(p.remaining_seconds(), 59);

    // A second resume is idempotent and emits nothing.
    assert_eq!(p.execute(TermAction::KeyboardInput('c')), None);
    assert_eq!(p.current_mode(), Mode::Running);
}

#[test]
fn reset_restores_default_in_any_state() {
    let mut p = Pomodoro::new();
    let _ = p.execute(TermAction::ClockTick);
    let _ = p.execute(TermAction::ClockTick);
    assert_eq!(p.remaining_seconds(), 58);
    assert_eq!(p.execute(TermAction::KeyboardInput('r')), None);
    assert_eq!(p.remaining_seconds(), 60);
    assert_eq!(p.current_mode(), Mode::Running);

    let _ = p.execute(TermAction::ClockTick);
    assert_eq!(p.execute(TermAction::KeyboardInput('s')), Some(Signal::StopTicker));
    assert_eq!(p.execute(TermAction::KeyboardInput('r')), None);
    assert_eq!(p.remaining_seconds(), 60);
    // Reset does not itself change the mode.
    assert_eq!(p.current_mode(), Mode::Stopped);
}

#[test]
fn unknown_key_changes_nothing() {
    let mut p = Pomodoro::new();
    let _ = p.execute(TermAction::ClockTick);
    assert_eq!(p.execute(TermAction::KeyboardInput('x')), None);
    assert_eq!(p.remaining_seconds(), 59);
    assert_eq!(p.current_mode(), Mode::Running);
}

#[test]
fn quit_emits_quit_and_keeps_state() {
    let mut p = Pomodoro::new();
    assert_eq!(p.execute(TermAction::KeyboardInput('q')), Some(Signal::Quit));
    assert_eq!(p.remaining_seconds(), 60);
    assert_eq!(p.current_mode(), Mode::Running);
}

#[test]
fn countdown_reaches_zero_and_stops() {
    let mut p = Pomodoro::new();
    let mut i = 0;
    while i < 59 {
        assert_eq!(p.execute(TermAction::ClockTick), None);
        i += 1;
    }
    // The sixtieth tick reaches zero: the controller stops itself and asks
    // for the ticker to be suspended.
    assert_eq!(p.execute(TermAction::ClockTick), Some(Signal::StopTicker));
    assert_eq!(p.remaining_seconds(), 0);
    assert_eq!(p.current_mode(), Mode::Stopped);
    assert_eq!(p.render()[0], "00:00:00");

    // Further ticks are ignored.
    assert_eq!(p.execute(TermAction::ClockTick), None);
    assert_eq!(p.remaining_seconds(), 0);

    // Resuming at the floor and ticking stays at zero and stops again.
    assert_eq!(p.execute(TermAction::KeyboardInput('c')), Some(Signal::ResumeTicker));
    assert_eq!(p.execute(TermAction::ClockTick), Some(Signal::StopTicker));
    assert_eq!(p.remaining_seconds(), 0);
    assert_eq!(p.current_mode(), Mode::Stopped);
    assert_eq!(p.render()[0], "00:00:00");
}

#[test]
fn renders_clock_then_action_lines() {
    let p = Pomodoro::new();
    let lines = p.render();
    assert_eq!(lines.len(), 5);
    assert_eq!(lines[0], "00:01:00");
    assert_eq!(lines[1], "\u{2192} (s) stop");
    assert_eq!(lines[2], "\u{2192} (c) continue");
    assert_eq!(lines[3], "\u{2192} (r) reset");
    assert_eq!(lines[4], "\u{2192} (q) quit");
}
