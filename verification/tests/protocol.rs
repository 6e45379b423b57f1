use comodoro::account::{
    localhost, Account, AccountNameArg, DefaultProtocolError, Hook, HookConfig, TcpConfig,
    TomlAccountConfig, TomlConfig, UnixSocket, UnixSocketConfig,
};
use comodoro::display::TimerPrecision;
use comodoro::protocol::{ConnectError, Endpoint, Protocol, ProtocolArg, ProtocolsArg};
use comodoro::timer::TimerCycle;

fn account(unix: Option<bool>, tcp: Option<bool>) -> Account {
    Account {
        default: false,
        unix_socket: unix.map(|default| UnixSocket { default, path: "/tmp/timer.sock".to_string() }),
        tcp: tcp.map(|default| TcpConfig { default, host: "localhost".to_string(), port: 9999 }),
        cycles: vec![TimerCycle::new("work", 10)],
        cycles_count: None,
        precision: TimerPrecision::Minute,
        hooks: Vec::new(),
    }
}

fn toml_account(default: bool, unix: Option<bool>, tcp: Option<bool>) -> TomlAccountConfig {
    TomlAccountConfig {
        default,
        unix_socket: unix
            .map(|default| UnixSocketConfig { default, path: "/tmp/timer.sock".to_string() }),
        tcp: tcp.map(|default| TcpConfig { default, host: "localhost".to_string(), port: 9999 }),
        cycles: Vec::new(),
        cycles_count: Some(2),
        precision: TimerPrecision::Second,
        hooks: Vec::new(),
    }
}

#[test]
fn protocol_names_are_read_exactly() {
    assert_eq!(Protocol::from_str("tcp", false), Ok(Protocol::Tcp));
    assert_eq!(Protocol::from_str("unix-socket", false), Ok(Protocol::UnixSocket));
    assert_eq!(Protocol::from_str("TCP", false), Err("Invalid protocol TCP".to_string()));
    assert_eq!(Protocol::from_str("", false), Err("Invalid protocol ".to_string()));
}

#[test]
fn protocol_names_are_read_whatever_their_case() {
    assert_eq!(Protocol::from_str("TCP", true), Ok(Protocol::Tcp));
    assert_eq!(Protocol::from_str("Unix-Socket", true), Ok(Protocol::UnixSocket));
    assert_eq!(Protocol::from_str("tcp", true), Ok(Protocol::Tcp));
    assert_eq!(Protocol::from_str("udp", true), Err("Invalid protocol udp".to_string()));
    assert_eq!(
        Protocol::from_str("unix_socket", true),
        Err("Invalid protocol unix_socket".to_string())
    );
}

#[test]
fn protocol_names_are_written() {
    assert_eq!(Protocol::Tcp.to_string(), "tcp");
    assert_eq!(Protocol::UnixSocket.to_string(), "unix-socket");
    assert_eq!(Protocol::Tcp.to_possible_value(), Some("tcp"));
    assert_eq!(Protocol::UnixSocket.to_possible_value(), Some("unix-socket"));
    assert_eq!(Protocol::value_variants(), vec![Protocol::UnixSocket, Protocol::Tcp]);
    for protocol in Protocol::value_variants() {
        assert_eq!(Protocol::from_str(&protocol.to_string(), false), Ok(protocol));
    }
}

#[test]
fn endpoint_is_what_the_account_configures() {
    let both = account(Some(false), Some(false));
    assert_eq!(
        Protocol::Tcp.connect(&both),
        Ok(Endpoint::Tcp { host: "localhost".to_string(), port: 9999 })
    );
    assert_eq!(
        Protocol::UnixSocket.connect(&both),
        Ok(Endpoint::UnixSocket { path: "/tmp/timer.sock".to_string() })
    );
}

#[test]
fn transport_without_configuration_is_refused() {
    let none = account(None, None);
    assert_eq!(Protocol::Tcp.connect(&none), Err(ConnectError::MissingTcp));
    assert_eq!(Protocol::UnixSocket.connect(&none), Err(ConnectError::MissingUnixSocket));
    assert_eq!(ConnectError::MissingTcp.message(), "Missing TCP configuration");
    assert_eq!(ConnectError::MissingUnixSocket.message(), "Missing unix socket configuration");
}

#[test]
fn marked_transport_is_the_default_and_tcp_wins() {
    assert_eq!(account(Some(true), Some(false)).get_default_protocol(), Ok(Protocol::UnixSocket));
    assert_eq!(account(Some(false), Some(true)).get_default_protocol(), Ok(Protocol::Tcp));
    assert_eq!(account(Some(true), Some(true)).get_default_protocol(), Ok(Protocol::Tcp));
}

#[test]
fn first_configured_transport_is_the_default_where_none_is_marked() {
    assert_eq!(account(Some(false), Some(false)).get_default_protocol(), Ok(Protocol::UnixSocket));
    assert_eq!(account(None, Some(false)).get_default_protocol(), Ok(Protocol::Tcp));
    assert_eq!(account(Some(false), None).get_default_protocol(), Ok(Protocol::UnixSocket));
}

#[test]
fn account_without_transport_has_no_default() {
    assert_eq!(
        account(None, None).get_default_protocol(),
        Err(DefaultProtocolError::NoneConfigured)
    );
    assert_eq!(
        DefaultProtocolError::NoneConfigured.message(),
        "Cannot find default protocol, please configure at least one"
    );
}

#[test]
fn file_account_needs_a_marked_transport() {
    assert_eq!(
        toml_account(false, Some(true), Some(false)).get_default_protocol(),
        Ok(Protocol::UnixSocket)
    );
    assert_eq!(toml_account(false, Some(true), Some(true)).get_default_protocol(), Ok(Protocol::Tcp));
    assert_eq!(
        toml_account(false, Some(false), Some(false)).get_default_protocol(),
        Err(DefaultProtocolError::NoneMarked)
    );
    assert_eq!(
        toml_account(false, None, None).get_default_protocol(),
        Err(DefaultProtocolError::NoneMarked)
    );
    assert_eq!(DefaultProtocolError::NoneMarked.message(), "no default protocol");
}

#[test]
fn accounts_are_found_by_mark_and_by_name() {
    let config = TomlConfig {
        accounts: vec![
            ("home".to_string(), toml_account(false, None, Some(true))),
            ("work".to_string(), toml_account(true, Some(true), None)),
            ("lab".to_string(), toml_account(true, None, None)),
        ],
    };
    let (name, found) = config.get_default_account_config().unwrap();
    assert_eq!(name, "work");
    assert_eq!(*found, toml_account(true, Some(true), None));
    let (name, found) = config.get_account_config("lab").unwrap();
    assert_eq!(name, "lab");
    assert_eq!(*found, toml_account(true, None, None));
    assert!(config.get_account_config("Lab").is_none());
    let unmarked = TomlConfig { accounts: vec![("home".to_string(), toml_account(false, None, None))] };
    assert!(unmarked.get_default_account_config().is_none());
    assert_eq!(TomlConfig::project_name(), "comodoro");
}

#[test]
fn arguments_give_up_what_was_named() {
    assert_eq!(ProtocolArg::default().value, None);
    assert_eq!(*ProtocolArg { value: Some(Protocol::Tcp) }.deref(), Some(Protocol::Tcp));
    let many = ProtocolsArg { value: Some(vec![Protocol::Tcp, Protocol::UnixSocket]) };
    assert_eq!(*many.deref(), Some(vec![Protocol::Tcp, Protocol::UnixSocket]));
    assert_eq!(many.into_protocols(), Some(vec![Protocol::Tcp, Protocol::UnixSocket]));
    assert_eq!(ProtocolsArg { value: None }.into_protocols(), None);
    assert_eq!(AccountNameArg::default().name, None);
    assert_eq!(localhost(), "127.0.0.1");
}

#[test]
fn accounts_are_valid_when_no_name_is_used_twice() {
    let mut own = account(None, None);
    assert!(own.validate());
    own.hooks = vec![("a".to_string(), Hook::default()), ("b".to_string(), Hook::default())];
    assert!(own.validate());
    own.hooks.push(("a".to_string(), Hook::default()));
    assert!(!own.validate());
    let mut file = toml_account(false, None, None);
    assert!(file.validate());
    file.hooks = vec![("a".to_string(), HookConfig::default()), ("a".to_string(), HookConfig::default())];
    assert!(!file.validate());
    let good = TomlConfig {
        accounts: vec![
            ("x".to_string(), toml_account(false, None, None)),
            ("y".to_string(), toml_account(false, None, None)),
        ],
    };
    assert!(good.validate());
    let twice = TomlConfig {
        accounts: vec![
            ("x".to_string(), toml_account(false, None, None)),
            ("x".to_string(), toml_account(true, None, None)),
        ],
    };
    assert!(!twice.validate());
    let inner = TomlConfig { accounts: vec![("x".to_string(), file)] };
    assert!(!inner.validate());
}
