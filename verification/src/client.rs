//! The client side of one exchange: where to connect, what to send, and
//! what to make of the answer.

use vstd::prelude::*;
use vstd::string::StringExecFns;
use crate::account::{Account, AccountNameArg, DefaultProtocolError};
use crate::config::{Config, PresetNameArg, TomlPresetConfig};
use crate::display::{shown, DisplayTimer, TimerPrecision};
use crate::engine::TimerSnapshot;
use crate::protocol::{
    endpoint_of, ConnectError, Endpoint, EndpointModel, Protocol, ProtocolArg,
};
use crate::text::same_text;
use crate::wire::{Request, Response, ResponseModel};

verus! {

/// Mathematical value of a [`ClientError`].
pub enum ClientErrorModel {
    NoProtocol(DefaultProtocolError),
    Connect(ConnectError),
    PresetNotFound(Seq<char>),
    MissingTcpConfig,
    MissingProtocol,
    InvalidResponse,
    Refused(Seq<char>),
}

/// Why a command of the client failed before or after its exchange with the
/// server.
#[derive(Debug, PartialEq, Eq)]
pub enum ClientError {
    /// No transport was named and the account offers none.
    NoProtocol(DefaultProtocolError),
    /// The account configures no endpoint for the transport.
    Connect(ConnectError),
    /// The configuration holds no preset of this name.
    PresetNotFound(String),
    /// The preset configures no TCP socket.
    MissingTcpConfig,
    /// No transport was named for a preset.
    MissingProtocol,
    /// The server acknowledged where it was asked for the timer.
    InvalidResponse,
    /// The server refused the request; carries its reason.
    Refused(String),
}

impl View for ClientError {
    type V = ClientErrorModel;

    open spec fn view(&self) -> ClientErrorModel {
        match *self {
            ClientError::NoProtocol(e) => ClientErrorModel::NoProtocol(e),
            ClientError::Connect(e) => ClientErrorModel::Connect(e),
            ClientError::PresetNotFound(name) => ClientErrorModel::PresetNotFound(name@),
            ClientError::MissingTcpConfig => ClientErrorModel::MissingTcpConfig,
            ClientError::MissingProtocol => ClientErrorModel::MissingProtocol,
            ClientError::InvalidResponse => ClientErrorModel::InvalidResponse,
            ClientError::Refused(reason) => ClientErrorModel::Refused(reason@),
        }
    }
}

impl ClientErrorModel {
    /// The text shown to the user for this error.
    pub open spec fn message(self) -> Seq<char> {
        match self {
            ClientErrorModel::NoProtocol(e) => e.message_spec(),
            ClientErrorModel::Connect(e) => e.message_spec(),
            ClientErrorModel::PresetNotFound(name) => "cannot find preset "@ + name,
            ClientErrorModel::MissingTcpConfig => "cannot build tcp client: missing tcp config"@,
            ClientErrorModel::MissingProtocol => "cannot build client: missing protocol"@,
            ClientErrorModel::InvalidResponse => "Invalid response Ok, expected Timer"@,
            ClientErrorModel::Refused(reason) => reason,
        }
    }
}

impl ClientError {
    /// The text shown to the user for this error.
    pub fn message(&self) -> (text: String)
        ensures
            text@ == self@.message(),
    {
        match self {
            ClientError::NoProtocol(e) => String::from_str(e.message()),
            ClientError::Connect(e) => String::from_str(e.message()),
            ClientError::PresetNotFound(name) => {
                let mut text = String::from_str("cannot find preset ");
                text.append(name.as_str());
                text
            },
            ClientError::MissingTcpConfig => String::from_str(
                "cannot build tcp client: missing tcp config",
            ),
            ClientError::MissingProtocol => String::from_str(
                "cannot build client: missing protocol",
            ),
            ClientError::InvalidResponse => String::from_str(
                "Invalid response Ok, expected Timer",
            ),
            ClientError::Refused(reason) => reason.clone(),
        }
    }
}

/// Mathematical value of an [`Exchange`].
pub struct ExchangeModel {
    pub endpoint: EndpointModel,
    pub request: Request,
}

/// One exchange with the server: where to connect and what to send.
#[derive(Debug, PartialEq, Eq)]
pub struct Exchange {
    pub endpoint: Endpoint,
    pub request: Request,
}

impl View for Exchange {
    type V = ExchangeModel;

    open spec fn view(&self) -> ExchangeModel {
        ExchangeModel { endpoint: self.endpoint@, request: self.request }
    }
}

/// A planned exchange or the reason why there is none, each taken by its
/// value.
pub open spec fn planned_view(planned: Result<Exchange, ClientError>) -> Result<
    ExchangeModel,
    ClientErrorModel,
> {
    match planned {
        Ok(exchange) => Ok(exchange@),
        Err(e) => Err(e@),
    }
}

/// The exchange that a command makes for an account: over the transport
/// that was named, else over the account's default one, with the endpoint
/// that the account configures for it.
pub open spec fn account_exchange(named: Option<Protocol>, account: &Account, request: Request)
    -> Result<ExchangeModel, ClientErrorModel> {
    let chosen = match named {
        Some(protocol) => Some(protocol),
        None => account.default_protocol(),
    };
    match chosen {
        None => Err(ClientErrorModel::NoProtocol(DefaultProtocolError::NoneConfigured)),
        Some(protocol) => match endpoint_of(protocol, account.unix_socket, account.tcp) {
            Ok(endpoint) => Ok(ExchangeModel { endpoint, request }),
            Err(e) => Err(ClientErrorModel::Connect(e)),
        },
    }
}

/// Plans the exchange that a command makes for an account.
pub fn plan_for_account(named: &Option<Protocol>, account: &Account, request: Request) -> (planned:
    Result<Exchange, ClientError>)
    ensures
        planned_view(planned) == account_exchange(*named, account, request),
{
    let protocol = match named {
        Some(protocol) => *protocol,
        None => match account.get_default_protocol() {
            Ok(protocol) => protocol,
            Err(e) => {
                return Err(ClientError::NoProtocol(e));
            },
        },
    };
    match protocol.connect(account) {
        Ok(endpoint) => Ok(Exchange { endpoint, request }),
        Err(e) => Err(ClientError::Connect(e)),
    }
}

/// The endpoint that a preset configures for a transport: its TCP socket for
/// TCP; a preset has no unix socket.
pub open spec fn preset_endpoint(protocol: Protocol, preset: &TomlPresetConfig) -> Result<
    EndpointModel,
    ClientErrorModel,
> {
    match protocol {
        Protocol::Tcp => match preset.tcp {
            Some(tcp) => Ok(EndpointModel::Tcp { host: tcp.host@, port: tcp.port }),
            None => Err(ClientErrorModel::MissingTcpConfig),
        },
        Protocol::UnixSocket => Err(ClientErrorModel::Connect(ConnectError::MissingUnixSocket)),
    }
}

/// An endpoint or the reason why there is none, each taken by its value.
pub open spec fn client_view(found: Result<Endpoint, ClientError>) -> Result<
    EndpointModel,
    ClientErrorModel,
> {
    match found {
        Ok(endpoint) => Ok(endpoint@),
        Err(e) => Err(e@),
    }
}

impl Protocol {
    /// Where a client of a preset connects over this transport.
    pub fn to_client(&self, config: &TomlPresetConfig) -> (found: Result<Endpoint, ClientError>)
        ensures
            client_view(found) == preset_endpoint(*self, config),
    {
        match self {
            Protocol::Tcp => match &config.tcp {
                Some(tcp) => Ok(Endpoint::Tcp { host: tcp.host.clone(), port: tcp.port }),
                None => Err(ClientError::MissingTcpConfig),
            },
            Protocol::UnixSocket => Err(ClientError::Connect(ConnectError::MissingUnixSocket)),
        }
    }
}

/// The exchange that a command makes for a preset of the configuration: the
/// preset must exist, a transport must be named, and the preset must
/// configure an endpoint for it.
pub open spec fn preset_exchange(
    named: Option<Protocol>,
    config: &Config,
    preset: Seq<char>,
    request: Request,
) -> Result<ExchangeModel, ClientErrorModel> {
    if !config.has_preset(preset) {
        Err(ClientErrorModel::PresetNotFound(preset))
    } else {
        match named {
            None => Err(ClientErrorModel::MissingProtocol),
            Some(protocol) => match preset_endpoint(protocol, &config.preset_named(preset)) {
                Ok(endpoint) => Ok(ExchangeModel { endpoint, request }),
                Err(e) => Err(e),
            },
        }
    }
}

/// Plans the exchange that a command makes for a preset.
pub fn plan_for_preset(named: &Option<Protocol>, config: &Config, preset: &str, request: Request)
    -> (planned: Result<Exchange, ClientError>)
    ensures
        planned_view(planned) == preset_exchange(*named, config, preset@, request),
{
    let found = match config.get_preset(preset) {
        Ok(found) => found,
        Err(e) => {
            return Err(ClientError::PresetNotFound(e.name));
        },
    };
    match named {
        None => Err(ClientError::MissingProtocol),
        Some(protocol) => match protocol.to_client(found) {
            Ok(endpoint) => Ok(Exchange { endpoint, request }),
            Err(e) => Err(e),
        },
    }
}

/// What an answer means to a command that asked for the timer: the
/// snapshot, unless the server acknowledged or refused instead.
pub open spec fn expected_timer(response: ResponseModel) -> Result<
    crate::engine::SnapshotModel,
    ClientErrorModel,
> {
    match response {
        ResponseModel::Timer(shot) => Ok(shot),
        ResponseModel::Ack => Err(ClientErrorModel::InvalidResponse),
        ResponseModel::Error(reason) => Err(ClientErrorModel::Refused(reason)),
    }
}

/// What an answer means to a command that asked for an operation: success,
/// unless the server refused.
pub open spec fn expected_ack(response: ResponseModel) -> Option<ClientErrorModel> {
    match response {
        ResponseModel::Error(reason) => Some(ClientErrorModel::Refused(reason)),
        _ => None,
    }
}

/// Reads the answer to a request for an operation, and gives the message
/// that reports its success.
pub fn acknowledge(response: Response, success: &'static str) -> (outcome: Result<
    &'static str,
    ClientError,
>)
    ensures
        match expected_ack(response@) {
            None => outcome == Ok::<&'static str, ClientError>(success),
            Some(e) => outcome matches Err(refusal) && refusal@ == e,
        },
{
    match response {
        Response::Error(reason) => Err(ClientError::Refused(reason)),
        _ => Ok(success),
    }
}

/// The command that asks for the timer and shows it.
#[derive(Debug, Default, PartialEq, Eq)]
pub struct GetTimerCommand {
    pub account: AccountNameArg,
    pub protocol: ProtocolArg,
}

impl GetTimerCommand {
    /// Plans the exchange: a `Get` over the transport that was named, else
    /// over the account's default one.
    pub fn execute(&self, account: &Account) -> (planned: Result<Exchange, ClientError>)
        ensures
            planned_view(planned) == account_exchange(self.protocol.value, account, Request::Get),
    {
        plan_for_account(&self.protocol.value, account, Request::Get)
    }

    /// Reads the answer: the timer to show at the account's precision. An
    /// acknowledgement in its place is refused.
    pub fn display(response: Response, precision: TimerPrecision) -> (outcome: Result<
        DisplayTimer,
        ClientError,
    >)
        ensures
            match expected_timer(response@) {
                Ok(shot) => outcome matches Ok(shown) && shown.timer@ == shot && shown.precision
                    == precision,
                Err(e) => outcome matches Err(refusal) && refusal@ == e,
            },
    {
        match response {
            Response::Timer(timer) => Ok(DisplayTimer { precision, timer }),
            Response::Ack => Err(ClientError::InvalidResponse),
            Response::Error(reason) => Err(ClientError::Refused(reason)),
        }
    }
}

/// The line that shows the timer of a preset, at the preset's precision.
pub fn get(preset: &TomlPresetConfig, timer: TimerSnapshot) -> (line: String)
    ensures
        line@ == shown(timer@, preset.timer_precision),
{
    let display = DisplayTimer { precision: preset.timer_precision, timer };
    display.render()
}

/// The command that starts the timer.
#[derive(Debug, Default, PartialEq, Eq)]
pub struct StartTimerCommand {
    pub account: AccountNameArg,
    pub protocol: ProtocolArg,
}

impl StartTimerCommand {
    /// The message that reports success.
    pub open spec fn success() -> Seq<char> {
        "Timer successfully started"@
    }

    /// Plans the exchange: a `Start` over the transport that was named, else
    /// over the account's default one.
    pub fn execute(&self, account: &Account) -> (planned: Result<Exchange, ClientError>)
        ensures
            planned_view(planned) == account_exchange(
                self.protocol.value,
                account,
                Request::Start,
            ),
    {
        plan_for_account(&self.protocol.value, account, Request::Start)
    }

    /// Reads the answer: the message to print, or the server's refusal.
    pub fn conclude(response: Response) -> (outcome: Result<&'static str, ClientError>)
        ensures
            match expected_ack(response@) {
                None => outcome matches Ok(text) && text@ == StartTimerCommand::success(),
                Some(e) => outcome matches Err(refusal) && refusal@ == e,
            },
    {
        acknowledge(response, "Timer successfully started")
    }
}

/// The command that pauses the timer.
#[derive(Debug, Default, PartialEq, Eq)]
pub struct PauseTimerCommand {
    pub account: AccountNameArg,
    pub protocol: ProtocolArg,
}

impl PauseTimerCommand {
    /// The message that reports success.
    pub open spec fn success() -> Seq<char> {
        "Timer successfully paused"@
    }

    /// Plans the exchange: a `Pause` over the transport that was named, else
    /// over the account's default one.
    pub fn execute(&self, account: &Account) -> (planned: Result<Exchange, ClientError>)
        ensures
            planned_view(planned) == account_exchange(
                self.protocol.value,
                account,
                Request::Pause,
            ),
    {
        plan_for_account(&self.protocol.value, account, Request::Pause)
    }

    /// Reads the answer: the message to print, or the server's refusal.
    pub fn conclude(response: Response) -> (outcome: Result<&'static str, ClientError>)
        ensures
            match expected_ack(response@) {
                None => outcome matches Ok(text) && text@ == PauseTimerCommand::success(),
                Some(e) => outcome matches Err(refusal) && refusal@ == e,
            },
    {
        acknowledge(response, "Timer successfully paused")
    }
}

/// The command that resumes the timer of a preset.
#[derive(Debug, Default, PartialEq, Eq)]
pub struct ResumeTimerCommand {
    pub preset: PresetNameArg,
    pub protocol: ProtocolArg,
}

impl ResumeTimerCommand {
    /// Plans the exchange: a `Resume` to the endpoint that the preset
    /// configures for the transport that was named.
    pub fn execute(&self, config: &Config) -> (planned: Result<Exchange, ClientError>)
        ensures
            planned_view(planned) == preset_exchange(
                self.protocol.value,
                config,
                self.preset.name@,
                Request::Resume,
            ),
    {
        plan_for_preset(&self.protocol.value, config, self.preset.name.as_str(), Request::Resume)
    }
}

/// The command that stops the timer of a preset.
#[derive(Debug, Default, PartialEq, Eq)]
pub struct StopTimerCommand {
    pub preset: PresetNameArg,
    pub protocol: ProtocolArg,
}

impl StopTimerCommand {
    /// Plans the exchange: a `Stop` to the endpoint that the preset
    /// configures for the transport that was named.
    pub fn execute(&self, config: &Config) -> (planned: Result<Exchange, ClientError>)
        ensures
            planned_view(planned) == preset_exchange(
                self.protocol.value,
                config,
                self.preset.name@,
                Request::Stop,
            ),
    {
        plan_for_preset(&self.protocol.value, config, self.preset.name.as_str(), Request::Stop)
    }
}

/// A command of the client.
#[derive(Debug, PartialEq, Eq)]
pub enum TimerSubcommand {
    Start(StartTimerCommand),
    Get(GetTimerCommand),
    Pause(PauseTimerCommand),
    Resume(ResumeTimerCommand),
    Stop(StopTimerCommand),
}

impl TimerSubcommand {
    /// The request that the command sends.
    pub open spec fn request_spec(&self) -> Request {
        match *self {
            TimerSubcommand::Start(_) => Request::Start,
            TimerSubcommand::Get(_) => Request::Get,
            TimerSubcommand::Pause(_) => Request::Pause,
            TimerSubcommand::Resume(_) => Request::Resume,
            TimerSubcommand::Stop(_) => Request::Stop,
        }
    }

    /// The request that the command sends.
    pub fn request(&self) -> (request: Request)
        ensures
            request == self.request_spec(),
    {
        match self {
            TimerSubcommand::Start(_) => Request::Start,
            TimerSubcommand::Get(_) => Request::Get,
            TimerSubcommand::Pause(_) => Request::Pause,
            TimerSubcommand::Resume(_) => Request::Resume,
            TimerSubcommand::Stop(_) => Request::Stop,
        }
    }

    /// The exchange of the command: for an account where the command goes
    /// by accounts, for a preset of the configuration where it goes by
    /// presets.
    pub open spec fn exchange(&self, account: &Account, config: &Config) -> Result<
        ExchangeModel,
        ClientErrorModel,
    > {
        match *self {
            TimerSubcommand::Start(cmd) => account_exchange(
                cmd.protocol.value,
                account,
                Request::Start,
            ),
            TimerSubcommand::Get(cmd) => account_exchange(
                cmd.protocol.value,
                account,
                Request::Get,
            ),
            TimerSubcommand::Pause(cmd) => account_exchange(
                cmd.protocol.value,
                account,
                Request::Pause,
            ),
            TimerSubcommand::Resume(cmd) => preset_exchange(
                cmd.protocol.value,
                config,
                cmd.preset.name@,
                Request::Resume,
            ),
            TimerSubcommand::Stop(cmd) => preset_exchange(
                cmd.protocol.value,
                config,
                cmd.preset.name@,
                Request::Stop,
            ),
        }
    }

    /// Plans the exchange of the command.
    pub fn execute(&self, account: &Account, config: &Config) -> (planned: Result<
        Exchange,
        ClientError,
    >)
        ensures
            planned_view(planned) == self.exchange(account, config),
    {
        match self {
            TimerSubcommand::Start(cmd) => cmd.execute(account),
            TimerSubcommand::Get(cmd) => cmd.execute(account),
            TimerSubcommand::Pause(cmd) => cmd.execute(account),
            TimerSubcommand::Resume(cmd) => cmd.execute(config),
            TimerSubcommand::Stop(cmd) => cmd.execute(config),
        }
    }
}

/// A command of the client as read from the command line: the preset it is
/// for and the transport it uses.
#[derive(Debug, PartialEq, Eq)]
pub enum Cmd<'a> {
    Start(&'a str, &'a Protocol),
    Get(&'a str, &'a Protocol),
    Pause(&'a str, &'a Protocol),
    Resume(&'a str, &'a Protocol),
    Stop(&'a str, &'a Protocol),
}

/// The request that a subcommand of a given name sends, if there is such a
/// subcommand.
pub open spec fn subcommand_request(name: Seq<char>) -> Option<Request> {
    if name == "start"@ {
        Some(Request::Start)
    } else if name == "get"@ {
        Some(Request::Get)
    } else if name == "pause"@ {
        Some(Request::Pause)
    } else if name == "resume"@ {
        Some(Request::Resume)
    } else if name == "stop"@ {
        Some(Request::Stop)
    } else {
        None
    }
}

impl<'a> Cmd<'a> {
    /// The request that the command sends.
    pub open spec fn request_spec(&self) -> Request {
        match *self {
            Cmd::Start(_, _) => Request::Start,
            Cmd::Get(_, _) => Request::Get,
            Cmd::Pause(_, _) => Request::Pause,
            Cmd::Resume(_, _) => Request::Resume,
            Cmd::Stop(_, _) => Request::Stop,
        }
    }

    /// The preset that the command is for.
    pub open spec fn preset_spec(&self) -> &'a str {
        match *self {
            Cmd::Start(preset, _) => preset,
            Cmd::Get(preset, _) => preset,
            Cmd::Pause(preset, _) => preset,
            Cmd::Resume(preset, _) => preset,
            Cmd::Stop(preset, _) => preset,
        }
    }

    /// The transport that the command uses.
    pub open spec fn protocol_spec(&self) -> &'a Protocol {
        match *self {
            Cmd::Start(_, protocol) => protocol,
            Cmd::Get(_, protocol) => protocol,
            Cmd::Pause(_, protocol) => protocol,
            Cmd::Resume(_, protocol) => protocol,
            Cmd::Stop(_, protocol) => protocol,
        }
    }

    /// Reads a command from the name of the subcommand that matched, with
    /// the preset and the transport given to it. A name that is none of
    /// `start`, `get`, `pause`, `resume` and `stop` is no command.
    pub fn from_subcommand(name: &str, preset: &'a str, protocol: &'a Protocol) -> (cmd: Option<
        Cmd<'a>,
    >)
        ensures
            match subcommand_request(name@) {
                None => cmd is None,
                Some(request) => cmd matches Some(c) && c.request_spec() == request
                    && c.preset_spec()@ == preset@ && *c.protocol_spec() == *protocol,
            },
    {
        if same_text(name, "start") {
            Some(Cmd::Start(preset, protocol))
        } else if same_text(name, "get") {
            Some(Cmd::Get(preset, protocol))
        } else if same_text(name, "pause") {
            Some(Cmd::Pause(preset, protocol))
        } else if same_text(name, "resume") {
            Some(Cmd::Resume(preset, protocol))
        } else if same_text(name, "stop") {
            Some(Cmd::Stop(preset, protocol))
        } else {
            None
        }
    }

    /// The request that the command sends.
    pub fn request(&self) -> (request: Request)
        ensures
            request == self.request_spec(),
    {
        match self {
            Cmd::Start(_, _) => Request::Start,
            Cmd::Get(_, _) => Request::Get,
            Cmd::Pause(_, _) => Request::Pause,
            Cmd::Resume(_, _) => Request::Resume,
            Cmd::Stop(_, _) => Request::Stop,
        }
    }
}

} // verus!
