use comodoro::account::{Account, TcpConfig, UnixSocket};
use comodoro::config::{Config, DurationsConfig, PresetKind, PresetNameArg, TomlPresetConfig};
use comodoro::display::TimerPrecision;
use comodoro::hooks_config::HooksConfig;
use comodoro::protocol::{ConnectError, Endpoint, Protocol, ProtocolsArg};
use comodoro::server::{
    AccountServerError, Cmd, ServerError, ServerSubcommand, StartServerCommand,
};
use comodoro::timer::{ConfigError, TimerCycle, TimerLoop, TimerState};

fn preset(kind: Option<PresetKind>, cycles: Vec<TimerCycle>, tcp: bool, count: usize) -> TomlPresetConfig {
    TomlPresetConfig {
        preset: kind,
        cycles,
        tcp: if tcp {
            Some(TcpConfig { default: false, host: "0.0.0.0".to_string(), port: 4000 })
        } else {
            None
        },
        hooks: Vec::new(),
        cycles_count: count,
        timer_precision: TimerPrecision::Minute,
    }
}

fn config() -> Config {
    Config {
        presets: vec![
            ("classic".to_string(), preset(Some(PresetKind::PresetPomodoro), Vec::new(), true, 0)),
            ("broken".to_string(), preset(None, Vec::new(), true, 0)),
        ],
        hooks: HooksConfig::default(),
        durations: DurationsConfig::default(),
    }
}

fn bound() -> Endpoint {
    Endpoint::Tcp { host: "0.0.0.0".to_string(), port: 4000 }
}

#[test]
fn server_follows_the_named_plan() {
    let plan = Protocol::into_server(&preset(Some(PresetKind::Preset52_17), Vec::new(), true, 3), Vec::new())
        .unwrap();
    assert_eq!(plan.timer.state(), TimerState::Stopped);
    assert_eq!(plan.timer.config().cycles, PresetKind::Preset52_17.cycles());
    assert_eq!(plan.timer.config().cycles_count, TimerLoop::Fixed(3));
    assert_eq!(plan.timer.remaining(), 3120);
    assert_eq!(plan.binders, vec![bound()]);
}

#[test]
fn server_follows_own_cycles_forever_where_the_count_is_zero() {
    let cycles = vec![TimerCycle::new("work", 10), TimerCycle::new("rest", 5)];
    let plan = Protocol::into_server(&preset(None, cycles.clone(), false, 0), vec![Protocol::Tcp]).unwrap();
    assert_eq!(plan.timer.config().cycles, cycles);
    assert_eq!(plan.timer.config().cycles_count, TimerLoop::Infinite);
    assert!(plan.binders.is_empty());
}

#[test]
fn server_listens_once_per_mention_of_a_configured_transport() {
    let cycles = vec![TimerCycle::new("work", 10)];
    let plan = Protocol::into_server(
        &preset(None, cycles.clone(), true, 1),
        vec![Protocol::UnixSocket, Protocol::Tcp, Protocol::Tcp],
    )
    .unwrap();
    assert_eq!(plan.binders, vec![bound(), bound()]);
    let plan =
        Protocol::into_server(&preset(None, cycles, true, 1), vec![Protocol::UnixSocket]).unwrap();
    assert!(plan.binders.is_empty());
}

#[test]
fn unusable_plan_is_refused() {
    assert_eq!(
        Protocol::into_server(&preset(None, Vec::new(), true, 0), Vec::new()).unwrap_err(),
        ConfigError::EmptyPlan
    );
    let cycles = vec![TimerCycle::new("work", 0)];
    assert_eq!(
        Protocol::into_server(&preset(None, cycles, true, 0), Vec::new()).unwrap_err(),
        ConfigError::ZeroDuration(0)
    );
}

#[test]
fn start_command_prepares_the_server_of_its_preset() {
    let command = StartServerCommand {
        preset: PresetNameArg { name: "classic".to_string() },
        protocols: ProtocolsArg { value: None },
    };
    let plan = command.execute(&config()).unwrap();
    assert_eq!(plan.timer.config().cycles, PresetKind::PresetPomodoro.cycles());
    assert_eq!(plan.binders, vec![bound()]);
    let command = ServerSubcommand::Start(StartServerCommand {
        preset: PresetNameArg { name: "classic".to_string() },
        protocols: ProtocolsArg { value: Some(vec![Protocol::UnixSocket]) },
    });
    let plan = command.execute(&config()).unwrap();
    assert!(plan.binders.is_empty());
}

#[test]
fn start_command_failures() {
    let command = StartServerCommand {
        preset: PresetNameArg { name: "gone".to_string() },
        protocols: ProtocolsArg { value: None },
    };
    assert_eq!(
        command.execute(&config()).unwrap_err(),
        ServerError::PresetNotFound("gone".to_string())
    );
    let command = StartServerCommand {
        preset: PresetNameArg { name: "broken".to_string() },
        protocols: ProtocolsArg { value: None },
    };
    assert_eq!(command.execute(&config()).unwrap_err(), ServerError::Plan(ConfigError::EmptyPlan));
}

#[test]
fn command_line_names_the_start_of_a_server() {
    let tcp = Protocol::Tcp;
    assert_eq!(
        Cmd::from_subcommands("server", "start", "classic", vec![&tcp]),
        Some(Cmd::Start("classic", vec![&tcp]))
    );
    assert_eq!(Cmd::from_subcommands("server", "stop", "classic", vec![&tcp]), None);
    assert_eq!(Cmd::from_subcommands("client", "start", "classic", Vec::new()), None);
}

fn account(unix: bool, tcp: bool, cycles: Vec<TimerCycle>, count: Option<usize>) -> Account {
    Account {
        default: false,
        unix_socket: if unix {
            Some(UnixSocket { default: false, path: "/run/timer".to_string() })
        } else {
            None
        },
        tcp: if tcp {
            Some(TcpConfig { default: false, host: "0.0.0.0".to_string(), port: 4000 })
        } else {
            None
        },
        cycles,
        cycles_count: count,
        precision: TimerPrecision::Minute,
        hooks: Vec::new(),
    }
}

fn local() -> Endpoint {
    Endpoint::UnixSocket { path: "/run/timer".to_string() }
}

#[test]
fn account_server_listens_on_all_configured_transports_by_default() {
    let cycles = vec![TimerCycle::new("work", 10), TimerCycle::new("rest", 5)];
    let plan = account(true, true, cycles.clone(), Some(2)).into_server(&Vec::new()).unwrap();
    assert_eq!(plan.binders, vec![local(), bound()]);
    assert_eq!(plan.timer.config().cycles, cycles);
    assert_eq!(plan.timer.config().cycles_count, TimerLoop::Fixed(2));
    assert_eq!(plan.timer.state(), TimerState::Stopped);
    let plan = account(false, true, cycles.clone(), None).into_server(&Vec::new()).unwrap();
    assert_eq!(plan.binders, vec![bound()]);
    assert_eq!(plan.timer.config().cycles_count, TimerLoop::Infinite);
    let plan = account(false, false, cycles, Some(0)).into_server(&Vec::new()).unwrap();
    assert!(plan.binders.is_empty());
    assert_eq!(plan.timer.config().cycles_count, TimerLoop::Infinite);
}

#[test]
fn account_server_listens_on_the_named_transports_in_order() {
    let cycles = vec![TimerCycle::new("work", 10)];
    let plan = account(true, true, cycles.clone(), None)
        .into_server(&vec![Protocol::Tcp, Protocol::UnixSocket])
        .unwrap();
    assert_eq!(plan.binders, vec![bound(), local()]);
    let plan = account(true, true, cycles, None).into_server(&vec![Protocol::Tcp]).unwrap();
    assert_eq!(plan.binders, vec![bound()]);
}

#[test]
fn account_server_failures() {
    let cycles = vec![TimerCycle::new("work", 10)];
    assert_eq!(
        account(true, false, cycles.clone(), None)
            .into_server(&vec![Protocol::UnixSocket, Protocol::Tcp])
            .unwrap_err(),
        AccountServerError::Transport(ConnectError::MissingTcp)
    );
    assert_eq!(
        account(false, false, cycles, None)
            .into_server(&vec![Protocol::UnixSocket, Protocol::Tcp])
            .unwrap_err(),
        AccountServerError::Transport(ConnectError::MissingUnixSocket)
    );
    assert_eq!(
        account(true, true, Vec::new(), None).into_server(&vec![Protocol::Tcp]).unwrap_err(),
        AccountServerError::Plan(ConfigError::EmptyPlan)
    );
    assert_eq!(
        account(false, false, vec![TimerCycle::new("a", 1), TimerCycle::new("b", 0)], None)
            .into_server(&vec![Protocol::Tcp])
            .unwrap_err(),
        AccountServerError::Plan(ConfigError::ZeroDuration(1))
    );
}
