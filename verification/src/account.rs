//! What an account configures: where its server listens, which plan its
//! timer follows, how the timer is shown and which hooks it runs.

use vstd::prelude::*;
use vstd::string::StringExecFns;
use crate::display::TimerPrecision;
use crate::protocol::Protocol;
use crate::named::{distinct, first_position, has_name, names_distinct, position};
use crate::timer::TimerCycle;

verus! {

/// The host that a TCP socket uses where none is configured.
pub open spec fn localhost_spec() -> Seq<char> {
    "127.0.0.1"@
}

/// The host that a TCP socket uses where none is configured.
pub fn localhost() -> (host: String)
    ensures
        host@ == localhost_spec(),
{
    String::from_str("127.0.0.1")
}

/// A TCP socket: host and port, and whether clients prefer it.
#[derive(Debug, PartialEq, Eq)]
pub struct TcpConfig {
    pub default: bool,
    pub host: String,
    pub port: u16,
}

impl TcpConfig {
    /// A TCP socket on the local host that clients do not prefer.
    pub fn on_localhost(port: u16) -> (tcp: TcpConfig)
        ensures
            !tcp.default,
            tcp.host@ == localhost_spec(),
            tcp.port == port,
    {
        TcpConfig { default: false, host: localhost(), port }
    }
}

impl Clone for TcpConfig {
    fn clone(&self) -> (copy: Self)
        ensures
            copy.default == self.default,
            copy.host@ == self.host@,
            copy.port == self.port,
    {
        TcpConfig { default: self.default, host: self.host.clone(), port: self.port }
    }
}

/// A socket in the local file system, and whether clients prefer it.
#[derive(Debug, Default, PartialEq, Eq)]
pub struct UnixSocket {
    pub default: bool,
    pub path: String,
}

/// A socket in the local file system as the configuration file gives it.
#[derive(Debug, Default, PartialEq, Eq)]
pub struct UnixSocketConfig {
    pub default: bool,
    pub path: String,
}

/// A desktop notification: its title and its text.
#[derive(Debug, Default, PartialEq, Eq)]
pub struct Notify {
    pub summary: String,
    pub body: String,
}

/// A desktop notification as the configuration file gives it.
#[derive(Debug, Default, PartialEq, Eq)]
pub struct NotifyConfig {
    pub summary: String,
    pub body: String,
}

/// A program to run with its arguments.
#[derive(Debug, Default, PartialEq, Eq)]
pub struct HookCommand {
    pub program: String,
    pub args: Vec<String>,
}

/// What happens when an event occurs: a command is run, a notification is
/// shown, both, or nothing.
#[derive(Debug, Default, PartialEq, Eq)]
pub struct Hook {
    pub command: Option<HookCommand>,
    pub notify: Option<Notify>,
}

/// A hook as the configuration file gives it.
#[derive(Debug, Default, PartialEq, Eq)]
pub struct HookConfig {
    pub command: Option<HookCommand>,
    pub notify: Option<NotifyConfig>,
}

/// One step of carrying out a hook.
#[derive(Clone, Copy, Debug, PartialEq, Eq, Structural)]
pub enum HookAction {
    /// Run the hook's command.
    RunCommand,
    /// Show the hook's notification.
    ShowNotification,
}

/// The steps that carrying out a hook takes, in order.
pub open spec fn hook_actions(has_command: bool, has_notification: bool) -> Seq<HookAction> {
    let first = if has_command {
        seq![HookAction::RunCommand]
    } else {
        Seq::<HookAction>::empty()
    };
    if has_notification {
        first.push(HookAction::ShowNotification)
    } else {
        first
    }
}

fn actions(has_command: bool, has_notification: bool) -> (steps: Vec<HookAction>)
    ensures
        steps@ == hook_actions(has_command, has_notification),
{
    let mut steps: Vec<HookAction> = Vec::new();
    if has_command {
        steps.push(HookAction::RunCommand);
    }
    if has_notification {
        steps.push(HookAction::ShowNotification);
    }
    assert(steps@ =~= hook_actions(has_command, has_notification));
    steps
}

impl Hook {
    /// The steps that carrying out this hook takes: its command first, if it
    /// has one, then its notification, if it has one. A step that fails does
    /// not keep the next one from being taken.
    pub fn exec(&self) -> (steps: Vec<HookAction>)
        ensures
            steps@ == hook_actions(self.command is Some, self.notify is Some),
    {
        actions(self.command.is_some(), self.notify.is_some())
    }
}

impl HookConfig {
    /// The steps that carrying out this hook takes: its command first, if it
    /// has one, then its notification, if it has one. A step that fails does
    /// not keep the next one from being taken.
    pub fn exec(&self) -> (steps: Vec<HookAction>)
        ensures
            steps@ == hook_actions(self.command is Some, self.notify is Some),
    {
        actions(self.command.is_some(), self.notify.is_some())
    }
}

/// Why an account offers no transport to a client.
#[derive(Clone, Copy, Debug, PartialEq, Eq, Structural)]
pub enum DefaultProtocolError {
    /// No transport is configured at all.
    NoneConfigured,
    /// No configured transport is marked as preferred.
    NoneMarked,
}

impl DefaultProtocolError {
    /// The text shown to the user for this error.
    pub open spec fn message_spec(self) -> Seq<char> {
        match self {
            DefaultProtocolError::NoneConfigured => {
                "Cannot find default protocol, please configure at least one"@
            },
            DefaultProtocolError::NoneMarked => "no default protocol"@,
        }
    }

    /// The text shown to the user for this error.
    pub fn message(&self) -> (text: &'static str)
        ensures
            text@ == self.message_spec(),
    {
        match self {
            DefaultProtocolError::NoneConfigured => {
                "Cannot find default protocol, please configure at least one"
            },
            DefaultProtocolError::NoneMarked => "no default protocol",
        }
    }
}

/// The transport that is marked as preferred: TCP where it is marked, else
/// the unix socket where that is marked.
pub open spec fn marked_protocol(unix_marked: bool, tcp_marked: bool) -> Option<Protocol> {
    if tcp_marked {
        Some(Protocol::Tcp)
    } else if unix_marked {
        Some(Protocol::UnixSocket)
    } else {
        None
    }
}

/// The first transport that is configured: the unix socket before TCP.
pub open spec fn first_protocol(has_unix: bool, has_tcp: bool) -> Option<Protocol> {
    if has_unix {
        Some(Protocol::UnixSocket)
    } else if has_tcp {
        Some(Protocol::Tcp)
    } else {
        None
    }
}

/// An account: the sockets of its server, the plan of its timer, the
/// precision at which the timer is shown and its hooks by name.
///
/// No two hooks have the same name.
#[derive(Debug, PartialEq, Eq)]
pub struct Account {
    pub default: bool,
    pub unix_socket: Option<UnixSocket>,
    pub tcp: Option<TcpConfig>,
    pub cycles: Vec<TimerCycle>,
    pub cycles_count: Option<usize>,
    pub precision: TimerPrecision,
    pub hooks: Vec<(String, Hook)>,
}

impl Account {
    /// No two hooks have the same name.
    pub open spec fn wf(&self) -> bool {
        names_distinct(self.hooks@)
    }

    /// Whether no two hooks have the same name.
    pub fn validate(&self) -> (ok: bool)
        ensures
            ok == self.wf(),
    {
        distinct(&self.hooks)
    }

    /// Whether the unix socket is configured and marked as preferred.
    pub open spec fn unix_marked(&self) -> bool {
        self.unix_socket matches Some(socket) && socket.default
    }

    /// Whether the TCP socket is configured and marked as preferred.
    pub open spec fn tcp_marked(&self) -> bool {
        self.tcp matches Some(tcp) && tcp.default
    }

    /// The transport that a client uses where none is named: the one marked
    /// as preferred, else the first one configured.
    pub open spec fn default_protocol(&self) -> Option<Protocol> {
        match marked_protocol(self.unix_marked(), self.tcp_marked()) {
            Some(protocol) => Some(protocol),
            None => first_protocol(self.unix_socket is Some, self.tcp is Some),
        }
    }

    /// The transport that a client uses where none is named on the command
    /// line. An account that configures no transport is refused.
    pub fn get_default_protocol(&self) -> (found: Result<Protocol, DefaultProtocolError>)
        ensures
            found == (match self.default_protocol() {
                Some(protocol) => Ok::<Protocol, DefaultProtocolError>(protocol),
                None => Err(DefaultProtocolError::NoneConfigured),
            }),
    {
        let mut first_available_protocol: Option<Protocol> = None;
        let mut default_protocol: Option<Protocol> = None;
        if let Some(socket) = &self.unix_socket {
            if first_available_protocol.is_none() {
                first_available_protocol = Some(Protocol::UnixSocket);
            }
            if socket.default {
                default_protocol = Some(Protocol::UnixSocket);
            }
        }
        if let Some(tcp) = &self.tcp {
            if first_available_protocol.is_none() {
                first_available_protocol = Some(Protocol::Tcp);
            }
            if tcp.default {
                default_protocol = Some(Protocol::Tcp);
            }
        }
        if let Some(protocol) = default_protocol {
            return Ok(protocol);
        }
        if let Some(protocol) = first_available_protocol {
            return Ok(protocol);
        }
        Err(DefaultProtocolError::NoneConfigured)
    }
}

/// An account as the configuration file gives it.
///
/// No two hooks have the same name.
#[derive(Debug, PartialEq, Eq)]
pub struct TomlAccountConfig {
    pub default: bool,
    pub unix_socket: Option<UnixSocketConfig>,
    pub tcp: Option<TcpConfig>,
    pub cycles: Vec<TimerCycle>,
    pub cycles_count: Option<usize>,
    pub precision: TimerPrecision,
    pub hooks: Vec<(String, HookConfig)>,
}

impl TomlAccountConfig {
    /// No two hooks have the same name.
    pub open spec fn wf(&self) -> bool {
        names_distinct(self.hooks@)
    }

    /// Whether no two hooks have the same name.
    pub fn validate(&self) -> (ok: bool)
        ensures
            ok == self.wf(),
    {
        distinct(&self.hooks)
    }

    /// Whether the unix socket is configured and marked as preferred.
    pub open spec fn unix_marked(&self) -> bool {
        self.unix_socket matches Some(socket) && socket.default
    }

    /// Whether the TCP socket is configured and marked as preferred.
    pub open spec fn tcp_marked(&self) -> bool {
        self.tcp matches Some(tcp) && tcp.default
    }

    /// The transport that the file marks as preferred. A file that marks
    /// none is refused, whatever it configures.
    pub fn get_default_protocol(&self) -> (found: Result<Protocol, DefaultProtocolError>)
        ensures
            found == (match marked_protocol(self.unix_marked(), self.tcp_marked()) {
                Some(protocol) => Ok::<Protocol, DefaultProtocolError>(protocol),
                None => Err(DefaultProtocolError::NoneMarked),
            }),
    {
        let mut protocol: Option<Protocol> = None;
        if let Some(socket) = &self.unix_socket {
            if socket.default {
                protocol = Some(Protocol::UnixSocket);
            }
        }
        if let Some(tcp) = &self.tcp {
            if tcp.default {
                protocol = Some(Protocol::Tcp);
            }
        }
        match protocol {
            Some(protocol) => Ok(protocol),
            None => Err(DefaultProtocolError::NoneMarked),
        }
    }
}

/// The account named on the command line, if one was.
#[derive(Debug, Default, PartialEq, Eq)]
pub struct AccountNameArg {
    pub name: Option<String>,
}

/// The configuration file of accounts: each account under its name.
///
/// No two accounts have the same name.
#[derive(Debug, PartialEq, Eq)]
pub struct TomlConfig {
    pub accounts: Vec<(String, TomlAccountConfig)>,
}

impl TomlConfig {
    /// No two accounts have the same name, and no account has two hooks of
    /// the same name.
    pub open spec fn wf(&self) -> bool {
        &&& names_distinct(self.accounts@)
        &&& forall|i: int| 0 <= i < self.accounts.len() ==> (#[trigger] self.accounts[i]).1.wf()
    }

    /// Whether no name is used twice, among the accounts and among the hooks
    /// of each account.
    pub fn validate(&self) -> (ok: bool)
        ensures
            ok == self.wf(),
    {
        if !distinct(&self.accounts) {
            return false;
        }
        let mut i: usize = 0;
        while i < self.accounts.len()
            invariant
                i <= self.accounts.len(),
                names_distinct(self.accounts@),
                forall|j: int| 0 <= j < i ==> (#[trigger] self.accounts[j]).1.wf(),
            decreases self.accounts.len() - i,
        {
            if !self.accounts[i].1.validate() {
                return false;
            }
            i += 1;
        }
        true
    }

    /// The name under which the program keeps its configuration.
    pub fn project_name() -> (name: &'static str)
        ensures
            name@ == "comodoro"@,
    {
        "comodoro"
    }

    /// Position `at` holds the first account that is marked as the default
    /// one.
    pub open spec fn default_at(&self, at: int) -> bool {
        &&& 0 <= at < self.accounts.len()
        &&& self.accounts[at].1.default
        &&& forall|j: int| 0 <= j < at ==> !(#[trigger] self.accounts[j]).1.default
    }

    /// The account that is marked as the default one, with its name; the
    /// first of them where several are marked.
    pub fn get_default_account_config(&self) -> (found: Option<(&String, &TomlAccountConfig)>)
        ensures
            match found {
                Some((name, account)) => exists|at: int|
                    self.default_at(at) && *name == (#[trigger] self.accounts[at]).0 && *account
                        == self.accounts[at].1,
                None => forall|j: int|
                    0 <= j < self.accounts.len() ==> !(#[trigger] self.accounts[j]).1.default,
            },
    {
        let mut i: usize = 0;
        while i < self.accounts.len()
            invariant
                i <= self.accounts.len(),
                forall|j: int| 0 <= j < i ==> !(#[trigger] self.accounts[j]).1.default,
            decreases self.accounts.len() - i,
        {
            if self.accounts[i].1.default {
                assert(self.default_at(i as int));
                return Some((&self.accounts[i].0, &self.accounts[i].1));
            }
            i += 1;
        }
        None
    }

    /// The account of a given name, with its name.
    pub fn get_account_config(&self, name: &str) -> (found: Option<(&String, &TomlAccountConfig)>)
        ensures
            found == (if has_name(self.accounts@, name@) {
                Some(
                    (
                        &self.accounts[first_position(self.accounts@, name@)].0,
                        &self.accounts[first_position(self.accounts@, name@)].1,
                    ),
                )
            } else {
                None
            }),
    {
        match position(&self.accounts, name) {
            Some(at) => {
                Some((&self.accounts[at].0, &self.accounts[at].1))
            },
            None => None,
        }
    }
}

} // verus!
