//! The transports over which clients reach the server, and how one is
//! chosen: by name on the command line, or from what an account configures.

use vstd::prelude::*;
use vstd::string::StringExecFns;
use crate::account::{Account, TcpConfig, UnixSocket};
use crate::text::{eq_ignore_ascii_case, same_ignoring_ascii_case, same_text};

verus! {

/// A transport between client and server.
#[derive(Clone, Copy, Debug, PartialEq, Eq, Structural)]
pub enum Protocol {
    /// A socket in the local file system.
    UnixSocket,
    /// A TCP socket.
    Tcp,
}

/// Mathematical value of an [`Endpoint`].
pub enum EndpointModel {
    UnixSocket { path: Seq<char> },
    Tcp { host: Seq<char>, port: u16 },
}

/// Where to connect or to listen: what the configuration gives for one
/// transport.
#[derive(Debug, PartialEq, Eq)]
pub enum Endpoint {
    UnixSocket { path: String },
    Tcp { host: String, port: u16 },
}

impl View for Endpoint {
    type V = EndpointModel;

    open spec fn view(&self) -> EndpointModel {
        match *self {
            Endpoint::UnixSocket { path } => EndpointModel::UnixSocket { path: path@ },
            Endpoint::Tcp { host, port } => EndpointModel::Tcp { host: host@, port },
        }
    }
}

impl DeepView for Endpoint {
    type V = EndpointModel;

    open spec fn deep_view(&self) -> EndpointModel {
        self@
    }
}

/// Why no endpoint can be given for a transport.
#[derive(Clone, Copy, Debug, PartialEq, Eq, Structural)]
pub enum ConnectError {
    /// The account configures no unix socket.
    MissingUnixSocket,
    /// The account configures no TCP socket.
    MissingTcp,
}

impl ConnectError {
    /// The text shown to the user for this error.
    pub open spec fn message_spec(self) -> Seq<char> {
        match self {
            ConnectError::MissingUnixSocket => "Missing unix socket configuration"@,
            ConnectError::MissingTcp => "Missing TCP configuration"@,
        }
    }

    /// The text shown to the user for this error.
    pub fn message(&self) -> (text: &'static str)
        ensures
            text@ == self.message_spec(),
    {
        match self {
            ConnectError::MissingUnixSocket => "Missing unix socket configuration",
            ConnectError::MissingTcp => "Missing TCP configuration",
        }
    }
}

/// The endpoint that an account configures for a transport, or the reason
/// why it has none.
pub open spec fn endpoint_of(
    protocol: Protocol,
    unix_socket: Option<UnixSocket>,
    tcp: Option<TcpConfig>,
) -> Result<EndpointModel, ConnectError> {
    match protocol {
        Protocol::UnixSocket => match unix_socket {
            Some(socket) => Ok(EndpointModel::UnixSocket { path: socket.path@ }),
            None => Err(ConnectError::MissingUnixSocket),
        },
        Protocol::Tcp => match tcp {
            Some(tcp) => Ok(EndpointModel::Tcp { host: tcp.host@, port: tcp.port }),
            None => Err(ConnectError::MissingTcp),
        },
    }
}

/// What looking for an endpoint returned, with the endpoint taken by its
/// value.
pub open spec fn endpoint_view(found: Result<Endpoint, ConnectError>) -> Result<
    EndpointModel,
    ConnectError,
> {
    match found {
        Ok(endpoint) => Ok(endpoint@),
        Err(e) => Err(e),
    }
}

impl Protocol {
    /// The name of a transport on the command line and in messages.
    pub open spec fn name(self) -> Seq<char> {
        match self {
            Protocol::UnixSocket => "unix-socket"@,
            Protocol::Tcp => "tcp"@,
        }
    }

    /// Whether a word names a transport, exactly or, where `ignore_case` is
    /// set, but for the case of its letters.
    pub open spec fn is_named(self, word: Seq<char>, ignore_case: bool) -> bool {
        word == self.name() || (ignore_case && same_ignoring_ascii_case(word, self.name()))
    }

    /// The transport that a word names, if it names one.
    pub open spec fn parsed(word: Seq<char>, ignore_case: bool) -> Option<Protocol> {
        if Protocol::UnixSocket.is_named(word, ignore_case) {
            Some(Protocol::UnixSocket)
        } else if Protocol::Tcp.is_named(word, ignore_case) {
            Some(Protocol::Tcp)
        } else {
            None
        }
    }

    /// The message for a word that names no transport.
    pub open spec fn invalid(word: Seq<char>) -> Seq<char> {
        "Invalid protocol "@ + word
    }

    /// Reads a transport from a word of the command line. A word that names
    /// none is refused with a message that quotes it.
    pub fn from_str(input: &str, ignore_case: bool) -> (parsed: Result<Protocol, String>)
        ensures
            match Protocol::parsed(input@, ignore_case) {
                Some(protocol) => parsed == Ok::<Protocol, String>(protocol),
                None => parsed matches Err(message) && message@ == Protocol::invalid(input@),
            },
    {
        if same_text(input, "unix-socket") || (ignore_case && eq_ignore_ascii_case(
            input,
            "unix-socket",
        )) {
            Ok(Protocol::UnixSocket)
        } else if same_text(input, "tcp") || (ignore_case && eq_ignore_ascii_case(input, "tcp")) {
            Ok(Protocol::Tcp)
        } else {
            let mut message = String::from_str("Invalid protocol ");
            message.append(input);
            Err(message)
        }
    }

    /// Every transport, in the order in which they are tried.
    pub fn value_variants() -> (all: Vec<Protocol>)
        ensures
            all@ == seq![Protocol::UnixSocket, Protocol::Tcp],
    {
        let mut all: Vec<Protocol> = Vec::new();
        all.push(Protocol::UnixSocket);
        all.push(Protocol::Tcp);
        assert(all@ =~= seq![Protocol::UnixSocket, Protocol::Tcp]);
        all
    }

    /// The word that is offered for this transport on the command line.
    pub fn to_possible_value(&self) -> (word: Option<&'static str>)
        ensures
            word matches Some(w) && w@ == self.name(),
    {
        match self {
            Protocol::UnixSocket => Some("unix-socket"),
            Protocol::Tcp => Some("tcp"),
        }
    }

    /// The name of this transport.
    pub fn to_string(&self) -> (name: String)
        ensures
            name@ == self.name(),
    {
        match self {
            Protocol::UnixSocket => String::from_str("unix-socket"),
            Protocol::Tcp => String::from_str("tcp"),
        }
    }

    /// Where a client connects over this transport for an account: the
    /// endpoint that the account configures for it. An account without one
    /// is refused.
    pub fn connect(&self, account: &Account) -> (found: Result<Endpoint, ConnectError>)
        ensures
            endpoint_view(found) == endpoint_of(*self, account.unix_socket, account.tcp),
    {
        match self {
            Protocol::UnixSocket => match &account.unix_socket {
                Some(socket) => Ok(Endpoint::UnixSocket { path: socket.path.clone() }),
                None => Err(ConnectError::MissingUnixSocket),
            },
            Protocol::Tcp => match &account.tcp {
                Some(tcp) => Ok(Endpoint::Tcp { host: tcp.host.clone(), port: tcp.port }),
                None => Err(ConnectError::MissingTcp),
            },
        }
    }
}

/// The transport named on the command line of a client, if one was.
#[derive(Clone, Copy, Debug, PartialEq, Eq, Structural)]
pub struct ProtocolArg {
    pub value: Option<Protocol>,
}

impl Default for ProtocolArg {
    fn default() -> (arg: Self)
        ensures
            arg.value is None,
    {
        ProtocolArg { value: None }
    }
}

impl ProtocolArg {
    /// The transport that was named, if one was.
    pub fn deref(&self) -> (value: &Option<Protocol>)
        ensures
            *value == self.value,
    {
        &self.value
    }
}

/// The transports named on the command line of a server, if any were.
#[derive(Debug, PartialEq, Eq)]
pub struct ProtocolsArg {
    pub value: Option<Vec<Protocol>>,
}

impl ProtocolsArg {
    /// The transports that were named, if any were.
    pub fn deref(&self) -> (value: &Option<Vec<Protocol>>)
        ensures
            *value == self.value,
    {
        &self.value
    }

    /// Gives up the transports that were named.
    pub fn into_protocols(self) -> (value: Option<Vec<Protocol>>)
        ensures
            value == self.value,
    {
        self.value
    }
}

} // verus!
