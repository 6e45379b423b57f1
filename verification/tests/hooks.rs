use comodoro::account::{Hook, HookAction, HookCommand, HookConfig, Notify, NotifyConfig};
use comodoro::config::{Config, DurationsConfig};
use comodoro::hooks::{hook_phrase, server_hook_name, timer_hook_name};
use comodoro::hooks_config::{HookEvent, HooksConfig, PomodoroCycle, PomodoroEvent, ServerEvent};
use comodoro::timer::{TimerCycle, TimerEvent};

fn text(s: &str) -> Option<String> {
    Some(s.to_string())
}

fn config_with(hooks: HooksConfig) -> Config {
    Config { presets: Vec::new(), hooks, durations: DurationsConfig::default() }
}

#[test]
fn fixed_hook_names() {
    assert_eq!(timer_hook_name(&TimerEvent::Started), "on-timer-start");
    assert_eq!(timer_hook_name(&TimerEvent::Stopped), "on-timer-stop");
    assert_eq!(server_hook_name(ServerEvent::Started), "on-server-start");
    assert_eq!(server_hook_name(ServerEvent::Stopping), "on-server-stopping");
    assert_eq!(server_hook_name(ServerEvent::Stopped), "on-server-stop");
}

#[test]
fn hook_phrase_joins_with_hyphens() {
    assert_eq!(hook_phrase("Short break", "begin"), "on-Short break-begin");
    assert_eq!(hook_phrase("", ""), "on--");
}

#[test]
fn cycle_hook_names_are_in_kebab_case() {
    let cycle = || TimerCycle::new("Short break", 300);
    assert_eq!(timer_hook_name(&TimerEvent::Began(cycle())), "on-short-break-begin");
    assert_eq!(timer_hook_name(&TimerEvent::Running(cycle())), "on-short-break-running");
    assert_eq!(timer_hook_name(&TimerEvent::SetTo(cycle())), "on-short-break-set");
    assert_eq!(timer_hook_name(&TimerEvent::Paused(cycle())), "on-short-break-pause");
    assert_eq!(timer_hook_name(&TimerEvent::Resumed(cycle())), "on-short-break-resume");
    assert_eq!(timer_hook_name(&TimerEvent::Ended(cycle())), "on-short-break-end");
}

#[test]
fn name_of_an_ended_cycle_is_put_in_lower_case_first() {
    let cycle = || TimerCycle::new("DeepWork", 10);
    assert_eq!(timer_hook_name(&TimerEvent::Began(cycle())), "on-deep-work-begin");
    assert_eq!(timer_hook_name(&TimerEvent::Ended(cycle())), "on-deepwork-end");
}

#[test]
fn set_hooks_win_over_those_of_the_configuration() {
    let own = HooksConfig {
        timer_started_hook: text("own start"),
        work_began_hook: text("own work"),
        ..Default::default()
    };
    let global = config_with(HooksConfig {
        timer_started_hook: text("global start"),
        timer_stopped_hook: text("global stop"),
        long_break_ended_hook: text("global long"),
        ..Default::default()
    });
    let merged = own.merge_with(&global);
    assert_eq!(
        merged,
        HooksConfig {
            timer_started_hook: text("own start"),
            timer_stopped_hook: text("global stop"),
            work_began_hook: text("own work"),
            long_break_ended_hook: text("global long"),
            ..Default::default()
        }
    );
}

#[test]
fn merging_with_nothing_changes_nothing() {
    let own = HooksConfig {
        server_started_hook: text("a"),
        second_short_break_resumed_hook: text("b"),
        ..Default::default()
    };
    assert_eq!(own.clone().merge_with(&config_with(HooksConfig::default())), own);
    assert_eq!(HooksConfig::default().merge_with(&config_with(own.clone())), own);
}

#[test]
fn general_hook_runs_before_the_hook_of_the_occurrence() {
    let hooks = HooksConfig {
        work_began_hook: text("any work"),
        first_work_began_hook: text("first work"),
        second_work_began_hook: text("second work"),
        short_break_ended_hook: text("any break"),
        second_short_break_ended_hook: text("second break"),
        long_break_paused_hook: text("long"),
        work_paused_hook: text("never for a long break"),
        ..Default::default()
    };
    assert_eq!(
        hooks.timer_commands(PomodoroEvent::Began(PomodoroCycle::FirstWork)),
        vec!["any work".to_string(), "first work".to_string()]
    );
    assert_eq!(
        hooks.timer_commands(PomodoroEvent::Began(PomodoroCycle::SecondWork)),
        vec!["any work".to_string(), "second work".to_string()]
    );
    assert_eq!(
        hooks.timer_commands(PomodoroEvent::Ended(PomodoroCycle::FirstShortBreak)),
        vec!["any break".to_string()]
    );
    assert_eq!(
        hooks.timer_commands(PomodoroEvent::Ended(PomodoroCycle::SecondShortBreak)),
        vec!["any break".to_string(), "second break".to_string()]
    );
    assert_eq!(
        hooks.timer_commands(PomodoroEvent::Paused(PomodoroCycle::LongBreak)),
        vec!["long".to_string()]
    );
    assert!(hooks.timer_commands(PomodoroEvent::Running(PomodoroCycle::FirstWork)).is_empty());
    assert!(hooks.timer_commands(PomodoroEvent::Started).is_empty());
}

#[test]
fn start_stop_and_server_events_have_one_hook_each() {
    let hooks = HooksConfig {
        server_started_hook: text("up"),
        server_stopping_hook: text("going"),
        server_stopped_hook: text("down"),
        timer_started_hook: text("go"),
        timer_stopped_hook: text("halt"),
        ..Default::default()
    };
    assert_eq!(hooks.server_commands(ServerEvent::Started), vec!["up".to_string()]);
    assert_eq!(hooks.server_commands(ServerEvent::Stopping), vec!["going".to_string()]);
    assert_eq!(hooks.server_commands(ServerEvent::Stopped), vec!["down".to_string()]);
    assert_eq!(hooks.timer_commands(PomodoroEvent::Started), vec!["go".to_string()]);
    assert_eq!(hooks.timer_commands(PomodoroEvent::Stopped), vec!["halt".to_string()]);
}

#[test]
fn applying_merges_first() {
    let own = HooksConfig { first_work_ended_hook: text("first"), ..Default::default() };
    let global = config_with(HooksConfig {
        work_ended_hook: text("any"),
        first_work_ended_hook: text("hidden"),
        server_stopped_hook: text("bye"),
        ..Default::default()
    });
    assert_eq!(
        own.apply(&global, HookEvent::Timer(PomodoroEvent::Ended(PomodoroCycle::FirstWork))),
        vec!["any".to_string(), "first".to_string()]
    );
    assert_eq!(
        own.apply(&global, HookEvent::Server(ServerEvent::Stopped)),
        vec!["bye".to_string()]
    );
    assert!(own.apply(&global, HookEvent::Server(ServerEvent::Started)).is_empty());
}

#[test]
fn hook_steps_in_order() {
    let command = || Some(HookCommand { program: "sh".to_string(), args: vec!["-c".to_string()] });
    let notify = || Some(Notify { summary: "Work".to_string(), body: "Go".to_string() });
    assert_eq!(
        Hook { command: command(), notify: notify() }.exec(),
        vec![HookAction::RunCommand, HookAction::ShowNotification]
    );
    assert_eq!(Hook { command: command(), notify: None }.exec(), vec![HookAction::RunCommand]);
    assert_eq!(Hook { command: None, notify: notify() }.exec(), vec![HookAction::ShowNotification]);
    assert!(Hook::default().exec().is_empty());
    let config = HookConfig {
        command: command(),
        notify: Some(NotifyConfig { summary: "s".to_string(), body: "b".to_string() }),
    };
    assert_eq!(config.exec(), vec![HookAction::RunCommand, HookAction::ShowNotification]);
    assert!(HookConfig::default().exec().is_empty());
}
