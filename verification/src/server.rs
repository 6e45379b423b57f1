//! The server side before anything is bound: which plan the timer follows
//! and on which endpoints the server listens, for a preset of the
//! configuration or for an account.

use vstd::prelude::*;
use crate::account::{Account, TcpConfig, UnixSocket};
use crate::config::{Config, PresetNameArg, TomlPresetConfig};
use crate::engine::{Timer, TimerModel};
use crate::protocol::{
    endpoint_of, ConnectError, Endpoint, EndpointModel, Protocol, ProtocolsArg,
};
use crate::text::same_text;
use crate::timer::{ConfigError, ConfigModel, TimerConfig, TimerCycle, TimerLoop};

verus! {

/// What a server is started with: its timer, at rest on the plan of the
/// preset, and the endpoints to listen on, in order.
#[derive(Debug)]
pub struct ServerPlan {
    pub timer: Timer,
    pub binders: Vec<Endpoint>,
}

/// The transports that a server uses: those that were named, or TCP where
/// none was.
pub open spec fn chosen_protocols(named: Seq<Protocol>) -> Seq<Protocol> {
    if named.len() == 0 {
        seq![Protocol::Tcp]
    } else {
        named
    }
}

/// The endpoints that a preset gives for a list of transports, in the order
/// of the list: its TCP socket for each mention of TCP, if it configures
/// one, and nothing for a unix socket, which a preset does not configure.
pub open spec fn binders_of(protocols: Seq<Protocol>, tcp: Option<TcpConfig>) -> Seq<
    EndpointModel,
>
    decreases protocols.len(),
{
    if protocols.len() == 0 {
        Seq::<EndpointModel>::empty()
    } else {
        let before = binders_of(protocols.drop_last(), tcp);
        match (protocols.last(), tcp) {
            (Protocol::Tcp, Some(tcp)) => before.push(
                EndpointModel::Tcp { host: tcp.host@, port: tcp.port },
            ),
            _ => before,
        }
    }
}

/// The repeat policy that a configured number of passes stands for; zero
/// stands for endless.
pub open spec fn loop_of_count(count: usize) -> TimerLoop {
    if count == 0 {
        TimerLoop::Infinite
    } else {
        TimerLoop::Fixed(count as u64)
    }
}

/// The plan of the timer that a preset asks for.
pub open spec fn server_config(preset: &TomlPresetConfig) -> ConfigModel {
    ConfigModel { plan: preset.plan(), cycles_count: loop_of_count(preset.cycles_count) }
}

fn binders(protocols: &Vec<Protocol>, tcp: &Option<TcpConfig>) -> (found: Vec<Endpoint>)
    ensures
        found.deep_view() == binders_of(protocols@, *tcp),
{
    let mut found: Vec<Endpoint> = Vec::new();
    let mut i: usize = 0;
    assert(protocols@.subrange(0, 0) =~= Seq::<Protocol>::empty());
    while i < protocols.len()
        invariant
            i <= protocols.len(),
            found.deep_view() == binders_of(protocols@.subrange(0, i as int), *tcp),
        decreases protocols.len() - i,
    {
        let ghost before = found.deep_view();
        assert(protocols@.subrange(0, i + 1).drop_last() =~= protocols@.subrange(0, i as int));
        assert(protocols@.subrange(0, i + 1).last() == protocols@[i as int]);
        match (protocols[i], tcp) {
            (Protocol::Tcp, Some(tcp)) => {
                found.push(Endpoint::Tcp { host: tcp.host.clone(), port: tcp.port });
                assert(found.deep_view() =~= before.push(
                    EndpointModel::Tcp { host: tcp.host@, port: tcp.port },
                ));
            },
            _ => {},
        }
        i += 1;
    }
    assert(protocols@.subrange(0, protocols.len() as int) =~= protocols@);
    found
}

/// What preparing the server of a preset comes to. The server is prepared
/// exactly when the preset's plan is usable: its timer is at rest on that
/// plan, and it listens on what the preset configures for the transports
/// that were named, or for TCP where none was. A plan that is not usable is
/// refused with its first fault.
pub open spec fn prepared_for(
    preset: &TomlPresetConfig,
    named: Seq<Protocol>,
    prepared: Result<ServerPlan, ConfigError>,
) -> bool {
    match prepared {
        Ok(plan) => {
            &&& server_config(preset).wf()
            &&& plan.timer.wf()
            &&& plan.timer@ == TimerModel::at_rest(server_config(preset))
            &&& plan.binders.deep_view() == binders_of(chosen_protocols(named), preset.tcp)
        },
        Err(ConfigError::EmptyPlan) => preset.plan().len() == 0,
        Err(ConfigError::ZeroDuration(at)) => server_config(preset).first_zero_at(at as int),
    }
}

impl Protocol {
    /// Prepares the server of a preset: its timer follows the plan that the
    /// preset names, else the preset's own cycles, as often as the preset
    /// says, and the server listens on what the preset configures for the
    /// transports that were named, or for TCP where none was. A preset
    /// whose plan is not usable is refused.
    pub fn into_server(config: &TomlPresetConfig, protocols: Vec<Protocol>) -> (prepared: Result<
        ServerPlan,
        ConfigError,
    >)
        ensures
            prepared_for(config, protocols@, prepared),
    {
        let cycles_count = TimerLoop::from_count(config.cycles_count as u64);
        let timer_config = TimerConfig { cycles: config.resolve_cycles(), cycles_count };
        assert(timer_config@ == server_config(config));
        let timer = match Timer::new(timer_config) {
            Ok(timer) => timer,
            Err(e) => {
                return Err(e);
            },
        };
        let protocols = if protocols.len() == 0 {
            let mut fallback: Vec<Protocol> = Vec::new();
            fallback.push(Protocol::Tcp);
            assert(fallback@ =~= seq![Protocol::Tcp]);
            fallback
        } else {
            protocols
        };
        Ok(ServerPlan { timer, binders: binders(&protocols, &config.tcp) })
    }
}

/// The transports that an account configures, the unix socket before TCP.
pub open spec fn configured_protocols(has_unix: bool, has_tcp: bool) -> Seq<Protocol> {
    let unix = if has_unix {
        seq![Protocol::UnixSocket]
    } else {
        Seq::<Protocol>::empty()
    };
    if has_tcp {
        unix.push(Protocol::Tcp)
    } else {
        unix
    }
}

/// The transports that the server of an account uses: those that were named,
/// or all that the account configures where none was.
pub open spec fn account_protocols(named: Seq<Protocol>, account: &Account) -> Seq<Protocol> {
    if named.len() == 0 {
        configured_protocols(account.unix_socket is Some, account.tcp is Some)
    } else {
        named
    }
}

/// The endpoints that an account gives for a list of transports, in the
/// order of the list; where it configures none for one of them, the reason
/// for the first such transport.
pub open spec fn endpoints_of(
    protocols: Seq<Protocol>,
    unix_socket: Option<UnixSocket>,
    tcp: Option<TcpConfig>,
) -> Result<Seq<EndpointModel>, ConnectError>
    decreases protocols.len(),
{
    if protocols.len() == 0 {
        Ok(Seq::<EndpointModel>::empty())
    } else {
        match endpoints_of(protocols.drop_last(), unix_socket, tcp) {
            Err(e) => Err(e),
            Ok(before) => match endpoint_of(protocols.last(), unix_socket, tcp) {
                Ok(endpoint) => Ok(before.push(endpoint)),
                Err(e) => Err(e),
            },
        }
    }
}

/// The plan of the timer that an account asks for: its cycles, repeated as
/// often as it says, endlessly where it gives no count or a count of zero.
pub open spec fn account_config(account: &Account) -> ConfigModel {
    ConfigModel {
        plan: account.cycles.deep_view(),
        cycles_count: match account.cycles_count {
            Some(count) => loop_of_count(count),
            None => TimerLoop::Infinite,
        },
    }
}

/// Why the server of an account cannot be started.
#[derive(Clone, Copy, Debug, PartialEq, Eq, Structural)]
pub enum AccountServerError {
    /// The plan of the account is not usable.
    Plan(ConfigError),
    /// A transport was named that the account does not configure.
    Transport(ConnectError),
}

/// What preparing the server of an account comes to. A plan that is not
/// usable is refused with its first fault, before anything else is looked
/// at. With a usable plan, the first transport without configuration among
/// those to use is refused; else the server is prepared: its timer is at
/// rest on the plan and it listens on the endpoints of those transports, in
/// order.
pub open spec fn account_prepared(
    account: &Account,
    named: Seq<Protocol>,
    prepared: Result<ServerPlan, AccountServerError>,
) -> bool {
    let config = account_config(account);
    let endpoints = endpoints_of(
        account_protocols(named, account),
        account.unix_socket,
        account.tcp,
    );
    match prepared {
        Ok(plan) => {
            &&& config.wf()
            &&& plan.timer.wf()
            &&& plan.timer@ == TimerModel::at_rest(config)
            &&& endpoints == Ok::<Seq<EndpointModel>, ConnectError>(plan.binders.deep_view())
        },
        Err(AccountServerError::Plan(ConfigError::EmptyPlan)) => config.plan.len() == 0,
        Err(AccountServerError::Plan(ConfigError::ZeroDuration(at))) => config.first_zero_at(
            at as int,
        ),
        Err(AccountServerError::Transport(e)) => config.wf() && endpoints == Err::<
            Seq<EndpointModel>,
            ConnectError,
        >(e),
    }
}

fn configured(account: &Account) -> (protocols: Vec<Protocol>)
    ensures
        protocols@ == configured_protocols(account.unix_socket is Some, account.tcp is Some),
{
    let mut protocols: Vec<Protocol> = Vec::new();
    if account.unix_socket.is_some() {
        protocols.push(Protocol::UnixSocket);
    }
    if account.tcp.is_some() {
        protocols.push(Protocol::Tcp);
    }
    assert(protocols@ =~= configured_protocols(
        account.unix_socket is Some,
        account.tcp is Some,
    ));
    protocols
}

fn endpoints(protocols: &Vec<Protocol>, account: &Account) -> (found: Result<
    Vec<Endpoint>,
    ConnectError,
>)
    ensures
        match found {
            Ok(list) => endpoints_of(protocols@, account.unix_socket, account.tcp) == Ok::<
                Seq<EndpointModel>,
                ConnectError,
            >(list.deep_view()),
            Err(e) => endpoints_of(protocols@, account.unix_socket, account.tcp) == Err::<
                Seq<EndpointModel>,
                ConnectError,
            >(e),
        },
{
    let mut list: Vec<Endpoint> = Vec::new();
    let mut i: usize = 0;
    assert(protocols@.subrange(0, 0) =~= Seq::<Protocol>::empty());
    assert(list.deep_view() =~= Seq::<EndpointModel>::empty());
    while i < protocols.len()
        invariant
            i <= protocols.len(),
            endpoints_of(protocols@.subrange(0, i as int), account.unix_socket, account.tcp)
                == Ok::<Seq<EndpointModel>, ConnectError>(list.deep_view()),
        decreases protocols.len() - i,
    {
        let ghost before = list.deep_view();
        assert(protocols@.subrange(0, i + 1).drop_last() =~= protocols@.subrange(0, i as int));
        assert(protocols@.subrange(0, i + 1).last() == protocols@[i as int]);
        match protocols[i].connect(account) {
            Ok(endpoint) => {
                let ghost added = endpoint@;
                list.push(endpoint);
                assert(list.deep_view() =~= before.push(added));
            },
            Err(e) => {
                proof {
                    lemma_endpoints_fail(protocols@, account.unix_socket, account.tcp, i + 1, e);
                }
                return Err(e);
            },
        }
        i += 1;
    }
    assert(protocols@.subrange(0, protocols.len() as int) =~= protocols@);
    Ok(list)
}

proof fn lemma_endpoints_fail(
    protocols: Seq<Protocol>,
    unix_socket: Option<UnixSocket>,
    tcp: Option<TcpConfig>,
    upto: int,
    e: ConnectError,
)
    requires
        0 <= upto <= protocols.len(),
        endpoints_of(protocols.subrange(0, upto), unix_socket, tcp) == Err::<
            Seq<EndpointModel>,
            ConnectError,
        >(e),
    ensures
        endpoints_of(protocols, unix_socket, tcp) == Err::<Seq<EndpointModel>, ConnectError>(e),
    decreases protocols.len() - upto,
{
    if upto == protocols.len() {
        assert(protocols.subrange(0, upto) =~= protocols);
    } else {
        assert(protocols.subrange(0, upto + 1).drop_last() =~= protocols.subrange(0, upto));
        lemma_endpoints_fail(protocols, unix_socket, tcp, upto + 1, e);
    }
}

impl Account {
    /// Prepares the server of the account: its timer follows the account's
    /// cycles, and the server listens on the transports that were named, or
    /// on all that the account configures where none was. An account whose
    /// plan is not usable is refused, and so is the naming of a transport
    /// that the account does not configure.
    pub fn into_server(&self, protocols: &Vec<Protocol>) -> (prepared: Result<
        ServerPlan,
        AccountServerError,
    >)
        ensures
            account_prepared(self, protocols@, prepared),
    {
        let cycles_count = match self.cycles_count {
            Some(count) => TimerLoop::from_count(count as u64),
            None => TimerLoop::Infinite,
        };
        let mut cycles: Vec<TimerCycle> = Vec::new();
        let mut i: usize = 0;
        while i < self.cycles.len()
            invariant
                i <= self.cycles.len(),
                cycles.len() == i,
                forall|j: int| 0 <= j < i ==> cycles[j]@ == self.cycles[j]@,
            decreases self.cycles.len() - i,
        {
            cycles.push(self.cycles[i].clone());
            i += 1;
        }
        assert(cycles.deep_view() =~= self.cycles.deep_view());
        let timer = match Timer::new(TimerConfig { cycles, cycles_count }) {
            Ok(timer) => timer,
            Err(e) => {
                return Err(AccountServerError::Plan(e));
            },
        };
        let found = if protocols.len() == 0 {
            let all = configured(self);
            endpoints(&all, self)
        } else {
            endpoints(protocols, self)
        };
        match found {
            Ok(binders) => Ok(ServerPlan { timer, binders }),
            Err(e) => Err(AccountServerError::Transport(e)),
        }
    }
}

/// Mathematical value of a [`ServerError`].
pub enum ServerErrorModel {
    PresetNotFound(Seq<char>),
    Plan(ConfigError),
}

/// Why a server cannot be started.
#[derive(Debug, PartialEq, Eq)]
pub enum ServerError {
    /// The configuration holds no preset of this name.
    PresetNotFound(String),
    /// The plan of the preset is not usable.
    Plan(ConfigError),
}

impl View for ServerError {
    type V = ServerErrorModel;

    open spec fn view(&self) -> ServerErrorModel {
        match *self {
            ServerError::PresetNotFound(name) => ServerErrorModel::PresetNotFound(name@),
            ServerError::Plan(e) => ServerErrorModel::Plan(e),
        }
    }
}

/// The command that starts the server of a preset.
#[derive(Debug, PartialEq, Eq)]
pub struct StartServerCommand {
    pub preset: PresetNameArg,
    pub protocols: ProtocolsArg,
}

/// The transports that a command names, as a list.
pub open spec fn named_protocols(arg: Option<Vec<Protocol>>) -> Seq<Protocol> {
    match arg {
        Some(protocols) => protocols@,
        None => Seq::<Protocol>::empty(),
    }
}

/// A prepared server or the reason why there is none, as a command reports
/// it.
pub open spec fn as_server_error(prepared: Result<ServerPlan, ServerError>) -> Option<
    Result<ServerPlan, ConfigError>,
> {
    match prepared {
        Ok(plan) => Some(Ok(plan)),
        Err(ServerError::Plan(fault)) => Some(Err(fault)),
        Err(ServerError::PresetNotFound(_)) => None,
    }
}

/// What starting a server comes to. A preset that the configuration does not
/// hold is refused by its name; the preset of that name is prepared as
/// [`prepared_for`] says, for the transports that the command names.
pub open spec fn start_outcome(
    command: StartServerCommand,
    config: &Config,
    prepared: Result<ServerPlan, ServerError>,
) -> bool {
    if !config.has_preset(command.preset.name@) {
        prepared matches Err(e) && e@ == ServerErrorModel::PresetNotFound(command.preset.name@)
    } else {
        as_server_error(prepared) matches Some(outcome) && prepared_for(
            &config.preset_named(command.preset.name@),
            named_protocols(command.protocols.value),
            outcome,
        )
    }
}

impl StartServerCommand {
    /// Prepares the server of the preset that the command names. A preset
    /// that the configuration does not hold is refused, and so is one whose
    /// plan is not usable.
    pub fn execute(self, config: &Config) -> (prepared: Result<ServerPlan, ServerError>)
        ensures
            start_outcome(self, config, prepared),
    {
        let preset = match config.get_preset(self.preset.name.as_str()) {
            Ok(preset) => preset,
            Err(e) => {
                return Err(ServerError::PresetNotFound(e.name));
            },
        };
        let protocols = match self.protocols.into_protocols() {
            Some(protocols) => protocols,
            None => Vec::new(),
        };
        match Protocol::into_server(preset, protocols) {
            Ok(plan) => Ok(plan),
            Err(e) => Err(ServerError::Plan(e)),
        }
    }
}

/// A command of the server.
#[derive(Debug, PartialEq, Eq)]
pub enum ServerSubcommand {
    Start(StartServerCommand),
}

impl ServerSubcommand {
    /// The command that starts a server, which is the only one there is.
    pub open spec fn start(self) -> StartServerCommand {
        match self {
            ServerSubcommand::Start(cmd) => cmd,
        }
    }

    /// Prepares what the command asks for: the server of the preset that it
    /// names. See [`StartServerCommand::execute`].
    pub fn execute(self, config: &Config) -> (prepared: Result<ServerPlan, ServerError>)
        ensures
            start_outcome(self.start(), config, prepared),
    {
        match self {
            ServerSubcommand::Start(cmd) => cmd.execute(config),
        }
    }
}

/// A command of the server as read from the command line: the preset it is
/// for and the transports that were named.
#[derive(Debug, PartialEq, Eq)]
pub enum Cmd<'a> {
    Start(&'a str, Vec<&'a Protocol>),
}

impl<'a> Cmd<'a> {
    /// Reads a command from the names of the subcommands that matched, the
    /// outer one first. Only `server` with `start` is a command.
    pub fn from_subcommands(
        group: &str,
        name: &str,
        preset: &'a str,
        protocols: Vec<&'a Protocol>,
    ) -> (cmd: Option<Cmd<'a>>)
        ensures
            cmd is Some <==> group@ == "server"@ && name@ == "start"@,
            cmd matches Some(Cmd::Start(p, list)) ==> p@ == preset@ && list == protocols,
    {
        if same_text(group, "server") && same_text(name, "start") {
            Some(Cmd::Start(preset, protocols))
        } else {
            None
        }
    }
}

} // verus!
