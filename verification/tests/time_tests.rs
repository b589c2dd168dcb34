use pomodoro::time::Time;
use pomodoro::TimerError;

#[test]
fn increments_when_new_clock() {
    let mut clock: Time = Time::new();

    assert_eq!(clock.seconds, 0);
    assert_eq!(clock.minutes, 0);
    assert_eq!(clock.hours, 0);

    assert!(clock.increment_second().is_ok());
    assert_eq!(clock.seconds, 1);
    assert_eq!(clock.minutes, 0);
    assert_eq!(clock.hours, 0);
}

#[test]
fn increments_when_to_minute() {
    let mut clock: Time = Time::new();
    clock.seconds = 59;

    assert!(clock.increment_second().is_ok());
    assert_eq!(clock.seconds, 0);
    assert_eq!(clock.minutes, 1);
    assert_eq!(clock.hours, 0);
}

#[test]
fn increments_when_to_hour() {
    let mut clock = Time::new();
    clock.seconds = 59;
    clock.minutes = 59;

    assert!(clock.increment_second().is_ok());
    assert_eq!(clock.seconds, 0);
    assert_eq!(clock.minutes, 0);
    assert_eq!(clock.hours, 1);
}

#[test]
fn renders_elapsed_time() {
    let mut clock = Time::new();
    assert_eq!(clock.render(), "00:00:00");
    clock.hours = 23;
    clock.minutes = 59;
    clock.seconds = 58;
    assert!(clock.increment_second().is_ok());
    assert_eq!(clock.render(), "23:59:59");
}

#[test]
fn count_up_stops_at_ceiling() {
    let mut clock = Time::new();
    clock.hours = 23;
    clock.minutes = 59;
    clock.seconds = 59;

    assert_eq!(clock.increment_second(), Err(TimerError::Boundary));
    assert_eq!(clock.hours, 23);
    assert_eq!(clock.minutes, 59);
    assert_eq!(clock.seconds, 59);
    assert_eq!(clock.render(), "23:59:59");

    // Idempotent at the ceiling.
    assert_eq!(clock.increment_second(), Err(TimerError::Boundary));
    assert_eq!(clock.render(), "23:59:59");
}
