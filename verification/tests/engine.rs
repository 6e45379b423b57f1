use comodoro::engine::{Timer, TimerSnapshot};
use comodoro::timer::{
    ConfigError, TimerConfig, TimerCycle, TimerError, TimerEvent, TimerLoop, TimerState,
};

fn timer_of(cycles: &[(&str, u64)], cycles_count: TimerLoop) -> Timer {
    let cycles = cycles.iter().map(|(name, duration)| TimerCycle::new(name, *duration)).collect();
    Timer::new(TimerConfig::new(cycles, cycles_count).unwrap()).unwrap()
}

fn ended_names(events: &[TimerEvent]) -> Vec<String> {
    let mut names = Vec::new();
    for event in events {
        if let TimerEvent::Ended(cycle) = event {
            names.push(cycle.name.clone());
        }
    }
    names
}

#[test]
fn new_timer_is_at_rest_on_first_cycle() {
    let timer = timer_of(&[("work", 5), ("break", 3)], TimerLoop::Fixed(2));
    assert_eq!(
        timer.get(),
        TimerSnapshot {
            state: TimerState::Stopped,
            cycle: TimerCycle::new("work", 5),
            cycle_index: 0,
            loop_count: 0,
        }
    );
}

#[test]
fn start_then_get_shows_first_cycle() {
    let mut timer = timer_of(&[("work", 5), ("break", 3)], TimerLoop::Fixed(1));
    let events = timer.start().unwrap();
    assert_eq!(events, vec![TimerEvent::Started, TimerEvent::Began(TimerCycle::new("work", 5))]);
    let shot = timer.get();
    assert_eq!(shot.state, TimerState::Running);
    assert_eq!(shot.cycle_index, 0);
    assert_eq!(shot.cycle, TimerCycle::new("work", 5));
    assert_eq!(timer.remaining(), 5);
}

#[test]
fn pause_then_resume_keeps_remaining() {
    let mut timer = timer_of(&[("work", 5)], TimerLoop::Infinite);
    timer.start().unwrap();
    timer.tick();
    timer.tick();
    let before = timer.remaining();
    assert_eq!(before, 3);
    assert_eq!(timer.pause().unwrap(), vec![TimerEvent::Paused(TimerCycle::new("work", 3))]);
    assert_eq!(timer.state(), TimerState::Paused);
    for _ in 0..10 {
        assert!(timer.tick().is_empty());
    }
    assert_eq!(timer.resume().unwrap(), vec![TimerEvent::Resumed(TimerCycle::new("work", 3))]);
    assert_eq!(timer.state(), TimerState::Running);
    assert_eq!(timer.remaining(), before);
}

#[test]
fn pause_on_stopped_timer_is_refused_and_changes_nothing() {
    let mut timer = timer_of(&[("work", 5)], TimerLoop::Infinite);
    let before = timer.get();
    assert_eq!(timer.pause(), Err(TimerError::NotRunning));
    assert_eq!(timer.get(), before);
    assert_eq!(timer.state(), TimerState::Stopped);
}

#[test]
fn every_refusal_leaves_the_timer_as_it_was() {
    let mut timer = timer_of(&[("work", 5)], TimerLoop::Infinite);
    assert_eq!(timer.resume(), Err(TimerError::NotPaused));
    assert_eq!(timer.stop(), Err(TimerError::NotStarted));
    assert_eq!(timer.get().state, TimerState::Stopped);
    timer.start().unwrap();
    timer.tick();
    let running = timer.get();
    assert_eq!(timer.start(), Err(TimerError::AlreadyStarted));
    assert_eq!(timer.resume(), Err(TimerError::NotPaused));
    assert_eq!(timer.get(), running);
    timer.pause().unwrap();
    let paused = timer.get();
    assert_eq!(timer.pause(), Err(TimerError::NotRunning));
    assert_eq!(timer.start(), Err(TimerError::AlreadyStarted));
    assert_eq!(timer.get(), paused);
}

#[test]
fn error_messages() {
    assert_eq!(TimerError::AlreadyStarted.message(), "timer already started");
    assert_eq!(TimerError::NotRunning.message(), "timer not running");
    assert_eq!(TimerError::NotPaused.message(), "timer not paused");
    assert_eq!(TimerError::NotStarted.message(), "timer not started");
}

#[test]
fn stop_clears_progress_from_running_and_from_paused() {
    let mut timer = timer_of(&[("work", 2), ("break", 3)], TimerLoop::Infinite);
    timer.start().unwrap();
    for _ in 0..6 {
        timer.tick();
    }
    assert_eq!(timer.loop_count(), 1);
    assert_eq!(timer.stop().unwrap(), vec![TimerEvent::Stopped]);
    assert_eq!(
        timer.get(),
        TimerSnapshot {
            state: TimerState::Stopped,
            cycle: TimerCycle::new("work", 2),
            cycle_index: 0,
            loop_count: 0,
        }
    );
    timer.start().unwrap();
    timer.tick();
    timer.tick();
    timer.pause().unwrap();
    assert_eq!(timer.cycle_index(), 1);
    assert_eq!(timer.stop().unwrap(), vec![TimerEvent::Stopped]);
    assert_eq!(timer.cycle_index(), 0);
    assert_eq!(timer.remaining(), 2);
}

#[test]
fn tick_is_dropped_unless_running() {
    let mut timer = timer_of(&[("work", 2)], TimerLoop::Fixed(1));
    let before = timer.get();
    assert!(timer.tick().is_empty());
    assert_eq!(timer.get(), before);
}

#[test]
fn running_is_reported_once_per_tick_but_not_on_a_boundary() {
    let mut timer = timer_of(&[("a", 3), ("b", 2)], TimerLoop::Infinite);
    timer.start().unwrap();
    assert_eq!(timer.tick(), vec![TimerEvent::Running(TimerCycle::new("a", 2))]);
    assert_eq!(timer.tick(), vec![TimerEvent::Running(TimerCycle::new("a", 1))]);
    assert_eq!(
        timer.tick(),
        vec![TimerEvent::Ended(TimerCycle::new("a", 0)), TimerEvent::Began(TimerCycle::new("b", 2))]
    );
    assert_eq!(timer.tick(), vec![TimerEvent::Running(TimerCycle::new("b", 1))]);
    assert_eq!(
        timer.tick(),
        vec![TimerEvent::Ended(TimerCycle::new("b", 0)), TimerEvent::Began(TimerCycle::new("a", 3))]
    );
    assert_eq!(timer.loop_count(), 1);
    assert_eq!(timer.cycle_index(), 0);
}

#[test]
fn work_then_break_then_stop() {
    let mut timer = timer_of(&[("work", 5), ("break", 3)], TimerLoop::Fixed(1));
    let mut events = timer.start().unwrap();
    let mut ticks = 0;
    for _ in 0..5 {
        events.extend(timer.tick());
        ticks += 1;
    }
    assert_eq!(
        events[events.len() - 2..],
        [TimerEvent::Ended(TimerCycle::new("work", 0)), TimerEvent::Began(TimerCycle::new("break", 3))]
    );
    assert_eq!(timer.state(), TimerState::Running);
    for _ in 0..3 {
        events.extend(timer.tick());
        ticks += 1;
    }
    assert_eq!(
        events[events.len() - 2..],
        [TimerEvent::Ended(TimerCycle::new("break", 0)), TimerEvent::Stopped]
    );
    assert_eq!(ticks, 8);
    assert_eq!(timer.state(), TimerState::Stopped);
    assert_eq!(ended_names(&events), vec!["work".to_string(), "break".to_string()]);
    assert!(timer.tick().is_empty());
}

#[test]
fn endless_plan_counts_its_passes() {
    let mut timer = timer_of(&[("x", 2)], TimerLoop::Infinite);
    timer.start().unwrap();
    for _ in 0..10 {
        timer.tick();
    }
    assert_eq!(timer.loop_count(), 5);
    assert_eq!(timer.state(), TimerState::Running);
}

#[test]
fn fixed_plan_ends_each_cycle_once_per_pass_in_order() {
    let mut timer = timer_of(&[("a", 3), ("b", 1), ("c", 2)], TimerLoop::Fixed(2));
    let mut events = timer.start().unwrap();
    let total = (3 + 1 + 2) * 2;
    for tick in 0..total {
        assert_eq!(timer.state(), TimerState::Running, "before tick {tick}");
        events.extend(timer.tick());
    }
    assert_eq!(timer.state(), TimerState::Stopped);
    let names: Vec<String> = ["a", "b", "c", "a", "b", "c"].iter().map(|n| n.to_string()).collect();
    assert_eq!(ended_names(&events), names);
    assert_eq!(events.last(), Some(&TimerEvent::Stopped));
    assert_eq!(events.iter().filter(|e| **e == TimerEvent::Stopped).count(), 1);
}

#[test]
fn a_timer_that_stopped_by_itself_can_be_started_again() {
    let mut timer = timer_of(&[("a", 1)], TimerLoop::Fixed(1));
    timer.start().unwrap();
    assert_eq!(
        timer.tick(),
        vec![TimerEvent::Ended(TimerCycle::new("a", 0)), TimerEvent::Stopped]
    );
    assert_eq!(timer.loop_count(), 0);
    assert!(timer.start().is_ok());
    assert_eq!(timer.state(), TimerState::Running);
}

#[test]
fn empty_plan_is_refused() {
    assert_eq!(TimerConfig::new(Vec::new(), TimerLoop::Infinite), Err(ConfigError::EmptyPlan));
    let config = TimerConfig { cycles: Vec::new(), cycles_count: TimerLoop::Fixed(3) };
    assert_eq!(config.validate(), Err(ConfigError::EmptyPlan));
    assert!(matches!(Timer::new(config), Err(ConfigError::EmptyPlan)));
}

#[test]
fn cycle_of_zero_seconds_is_refused_at_its_position() {
    let cycles = vec![TimerCycle::new("a", 1), TimerCycle::new("b", 0), TimerCycle::new("c", 0)];
    assert_eq!(TimerConfig::new(cycles, TimerLoop::Infinite), Err(ConfigError::ZeroDuration(1)));
}

#[test]
fn usable_plan_is_kept_as_given() {
    let cycles = vec![TimerCycle::new("a", 1), TimerCycle::new("b", 7)];
    let config = TimerConfig::new(cycles.clone(), TimerLoop::Fixed(4)).unwrap();
    assert_eq!(config.cycles, cycles);
    assert_eq!(config.cycles_count, TimerLoop::Fixed(4));
    assert_eq!(config.validate(), Ok(()));
    assert_eq!(config.clone(), config);
}

#[test]
fn zero_count_stands_for_endless() {
    assert_eq!(TimerLoop::from_count(0), TimerLoop::Infinite);
    assert_eq!(TimerLoop::from_count(3), TimerLoop::Fixed(3));
}

#[test]
fn pass_count_stays_at_its_limit() {
    let mut timer = timer_of(&[("a", 1)], TimerLoop::Fixed(u64::MAX));
    timer.start().unwrap();
    timer.tick();
    assert_eq!(timer.loop_count(), 1);
    assert_eq!(timer.state(), TimerState::Running);
}
