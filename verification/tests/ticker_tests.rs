use pomodoro::ticker::{ticker_step, TickerEvent, TickerState};

#[test]
fn ticking_emits_on_elapsed_sleep_only() {
    assert_eq!(
        ticker_step(TickerState::Ticking, TickerEvent::SleepElapsed),
        (TickerState::Ticking, true)
    );
    assert_eq!(
        ticker_step(TickerState::Ticking, TickerEvent::StopReceived),
        (TickerState::AwaitingResume, false)
    );
    assert_eq!(
        ticker_step(TickerState::Ticking, TickerEvent::StopClosed),
        (TickerState::AwaitingResume, false)
    );
}

#[test]
fn suspended_ticker_waits_for_resume() {
    assert_eq!(
        ticker_step(TickerState::AwaitingResume, TickerEvent::ResumeReceived),
        (TickerState::DrainingStop, false)
    );
    assert_eq!(
        ticker_step(TickerState::AwaitingResume, TickerEvent::ResumeClosed),
        (TickerState::Terminated, false)
    );
}

#[test]
fn resumed_ticker_drains_one_stale_stop() {
    assert_eq!(
        ticker_step(TickerState::DrainingStop, TickerEvent::StopReceived),
        (TickerState::Ticking, false)
    );
    assert_eq!(
        ticker_step(TickerState::DrainingStop, TickerEvent::StopEmpty),
        (TickerState::Ticking, false)
    );
    assert_eq!(
        ticker_step(TickerState::DrainingStop, TickerEvent::StopClosed),
        (TickerState::Terminated, false)
    );
}

#[test]
fn terminated_ticker_never_resurrects() {
    assert_eq!(
        ticker_step(TickerState::Terminated, TickerEvent::SleepElapsed),
        (TickerState::Terminated, false)
    );
    assert_eq!(
        ticker_step(TickerState::Terminated, TickerEvent::ResumeReceived),
        (TickerState::Terminated, false)
    );
}
