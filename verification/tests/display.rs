use comodoro::display::{clock_text, DisplayTimer, TimerPrecision};
use comodoro::engine::TimerSnapshot;
use comodoro::text::{decimal_string, eq_ignore_ascii_case, same_text};
use comodoro::timer::{TimerCycle, TimerState};

fn show(state: TimerState, name: &str, left: u64, precision: TimerPrecision) -> String {
    let timer =
        TimerSnapshot { state, cycle: TimerCycle::new(name, left), cycle_index: 0, loop_count: 0 };
    DisplayTimer { precision, timer }.render()
}

#[test]
fn stopped_timer_is_off() {
    assert_eq!(show(TimerState::Stopped, "work", 1500, TimerPrecision::Second), "OFF");
}

#[test]
fn paused_timer_shows_its_cycle() {
    assert_eq!(show(TimerState::Paused, "work", 1500, TimerPrecision::Hour), "[work] paused");
}

#[test]
fn under_a_minute_seconds_are_shown_at_any_precision() {
    for precision in [TimerPrecision::Second, TimerPrecision::Minute, TimerPrecision::Hour] {
        assert_eq!(show(TimerState::Running, "work", 59, precision), "[work] 59s");
        assert_eq!(show(TimerState::Running, "work", 0, precision), "[work] 0s");
    }
}

#[test]
fn under_an_hour_minutes_are_shown() {
    assert_eq!(show(TimerState::Running, "work", 1499, TimerPrecision::Second), "[work] 24min 59s");
    assert_eq!(show(TimerState::Running, "work", 1499, TimerPrecision::Minute), "[work] 24min");
    assert_eq!(show(TimerState::Running, "work", 1499, TimerPrecision::Hour), "[work] 24min");
    assert_eq!(show(TimerState::Running, "work", 60, TimerPrecision::Second), "[work] 1min 0s");
}

#[test]
fn from_an_hour_on_hours_are_shown() {
    assert_eq!(
        show(TimerState::Running, "Long break", 3725, TimerPrecision::Second),
        "[Long break] 1h 2min 5s"
    );
    assert_eq!(
        show(TimerState::Running, "Long break", 3725, TimerPrecision::Minute),
        "[Long break] 1h 2min"
    );
    assert_eq!(show(TimerState::Running, "Long break", 3725, TimerPrecision::Hour), "[Long break] 1h");
    assert_eq!(clock_text(3600, TimerPrecision::Second), "1h 0min 0s");
    assert_eq!(clock_text(360000, TimerPrecision::Minute), "100h 0min");
}

#[test]
fn precision_names() {
    for word in ["second", "seconds", "secs", "sec", "s"] {
        assert_eq!(TimerPrecision::from_name(word), Some(TimerPrecision::Second));
    }
    for word in ["minute", "minutes", "mins", "min", "m"] {
        assert_eq!(TimerPrecision::from_name(word), Some(TimerPrecision::Minute));
    }
    for word in ["hour", "hours", "h"] {
        assert_eq!(TimerPrecision::from_name(word), Some(TimerPrecision::Hour));
    }
    assert_eq!(TimerPrecision::from_name("Second"), None);
    assert_eq!(TimerPrecision::from_name(""), None);
    assert_eq!(TimerPrecision::default(), TimerPrecision::Minute);
}

#[test]
fn numbers_in_decimal() {
    assert_eq!(decimal_string(0), "0");
    assert_eq!(decimal_string(9), "9");
    assert_eq!(decimal_string(10), "10");
    assert_eq!(decimal_string(305), "305");
    assert_eq!(decimal_string(u64::MAX), "18446744073709551615");
}

#[test]
fn comparing_words() {
    assert!(same_text("tcp", "tcp"));
    assert!(!same_text("tcp", "TCP"));
    assert!(eq_ignore_ascii_case("tcp", "TcP"));
    assert!(eq_ignore_ascii_case("unix-socket", "UNIX-SOCKET"));
    assert!(!eq_ignore_ascii_case("tcp", "tcpx"));
    assert!(!eq_ignore_ascii_case("tcp", "udp"));
    assert!(eq_ignore_ascii_case("caf\u{e9}", "CAF\u{e9}"));
    assert!(!eq_ignore_ascii_case("caf\u{e9}", "CAF\u{c9}"));
    assert!(!eq_ignore_ascii_case("@", "`"));
    assert!(!eq_ignore_ascii_case("[", "{"));
}
