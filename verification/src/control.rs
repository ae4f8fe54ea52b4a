//! The control channel: the one-byte protocol, the life of one connection,
//! and the accept loop that serves connections until told to stop.
//!
//! Reading, writing, accepting and waiting are the driver's work. After each
//! of them it reports an event, and the step functions here answer with the
//! next state and the action to perform.

use vstd::prelude::*;

verus! {

/// The number of seconds without an open connection after which the service
/// stops by itself.
pub const IDLE_TIMEOUT_SECS: u64 = 6;

/// Request byte: report whether the configured pattern is in force.
pub const ID_PROTO_GET_STATUS: u8 = 71;

/// Request byte: stop the service.
pub const ID_PROTO_NOTIFY_STOP: u8 = 72;

/// Reply byte: the configured pattern is in force.
pub const ID_PROTO_SAY_OK: u8 = 171;

/// Reply byte: the configured pattern did not compile.
pub const ID_PROTO_GRIPE_REGEX: u8 = 172;

/// A request that the protocol defines.
#[derive(Clone, Copy, Debug, PartialEq, Eq, Structural)]
pub enum Command {
    GetStatus,
    NotifyStop,
}

/// The request that a byte stands for, if any.
pub open spec fn command_of(byte: u8) -> Option<Command> {
    if byte == ID_PROTO_GET_STATUS {
        Some(Command::GetStatus)
    } else if byte == ID_PROTO_NOTIFY_STOP {
        Some(Command::NotifyStop)
    } else {
        None
    }
}

/// The reply to a status query.
pub open spec fn status_reply(pattern_set: bool) -> u8 {
    if pattern_set {
        ID_PROTO_SAY_OK
    } else {
        ID_PROTO_GRIPE_REGEX
    }
}

/// Reads a request byte.
pub fn decode_command(byte: u8) -> (command: Option<Command>)
    ensures
        command == command_of(byte),
{
    if byte == ID_PROTO_GET_STATUS {
        Some(Command::GetStatus)
    } else if byte == ID_PROTO_NOTIFY_STOP {
        Some(Command::NotifyStop)
    } else {
        None
    }
}

/// Where one connection stands. It holds its activity guard in every state
/// but `Closed`.
#[derive(Clone, Copy, Debug, PartialEq, Eq, Structural)]
pub enum ConnectionState {
    /// Waiting for a request byte or for the stop signal.
    AwaitingCommand,
    /// Writing and flushing a reply byte.
    Replying,
    /// Over; the guard is released.
    Closed,
}

/// What the driver reports of one connection.
#[derive(Clone, Copy, Debug, PartialEq, Eq, Structural)]
pub enum ConnectionEvent {
    /// One request byte arrived.
    Received(u8),
    /// The peer closed the stream before another byte.
    EndOfStream,
    /// The read failed otherwise.
    ReadFailed,
    /// The stop signal was seen while the read was pending.
    Cancelled,
    /// The reply was written and flushed.
    ReplySent,
    /// Writing or flushing the reply failed.
    ReplyFailed,
}

/// Why a connection ended with a warning.
#[derive(Clone, Copy, Debug, PartialEq, Eq, Structural)]
pub enum ConnectionError {
    /// A byte that is no defined request.
    UnknownCommand(u8),
    /// A failed read or write.
    Io,
}

/// What the driver does next for one connection.
#[derive(Clone, Copy, Debug, PartialEq, Eq)]
pub enum ConnectionAction {
    /// Wait for the next request byte or the stop signal.
    Read,
    /// Write and flush this byte.
    Reply(u8),
    /// Set the stop signal, then wait as for `Read`.
    SignalStop,
    /// Release the guard and end: silently on `None`, with a warning on an
    /// error. The server is not told either way.
    Finish(Option<ConnectionError>),
}

/// The answer to one event of a connection.
#[derive(Clone, Copy, Debug, PartialEq, Eq)]
pub struct ConnectionStep {
    pub next: ConnectionState,
    pub action: ConnectionAction,
}

/// The protocol of one connection: the answer to `event` in `state`, or
/// `None` where that event cannot occur in that state.
pub open spec fn connection_step(
    pattern_set: bool,
    state: ConnectionState,
    event: ConnectionEvent,
) -> Option<ConnectionStep> {
    match (state, event) {
        (ConnectionState::AwaitingCommand, ConnectionEvent::Received(byte)) => Some(
            match command_of(byte) {
                Some(Command::GetStatus) => ConnectionStep {
                    next: ConnectionState::Replying,
                    action: ConnectionAction::Reply(status_reply(pattern_set)),
                },
                Some(Command::NotifyStop) => ConnectionStep {
                    next: ConnectionState::AwaitingCommand,
                    action: ConnectionAction::SignalStop,
                },
                None => ConnectionStep {
                    next: ConnectionState::Closed,
                    action: ConnectionAction::Finish(Some(ConnectionError::UnknownCommand(byte))),
                },
            },
        ),
        (ConnectionState::AwaitingCommand, ConnectionEvent::EndOfStream) => Some(
            ConnectionStep {
                next: ConnectionState::Closed,
                action: ConnectionAction::Finish(None),
            },
        ),
        (ConnectionState::AwaitingCommand, ConnectionEvent::Cancelled) => Some(
            ConnectionStep {
                next: ConnectionState::Closed,
                action: ConnectionAction::Finish(None),
            },
        ),
        (ConnectionState::AwaitingCommand, ConnectionEvent::ReadFailed) => Some(
            ConnectionStep {
                next: ConnectionState::Closed,
                action: ConnectionAction::Finish(Some(ConnectionError::Io)),
            },
        ),
        (ConnectionState::Replying, ConnectionEvent::ReplySent) => Some(
            ConnectionStep {
                next: ConnectionState::AwaitingCommand,
                action: ConnectionAction::Read,
            },
        ),
        (ConnectionState::Replying, ConnectionEvent::ReplyFailed) => Some(
            ConnectionStep {
                next: ConnectionState::Closed,
                action: ConnectionAction::Finish(Some(ConnectionError::Io)),
            },
        ),
        _ => None,
    }
}

/// The state of a connection that was just accepted, and its first action.
pub fn open_connection() -> (step: ConnectionStep)
    ensures
        step == (ConnectionStep {
            next: ConnectionState::AwaitingCommand,
            action: ConnectionAction::Read,
        }),
{
    ConnectionStep { next: ConnectionState::AwaitingCommand, action: ConnectionAction::Read }
}

/// Answers one event of a connection. `pattern_set` says whether the
/// configured pattern is in force.
pub fn handle_connection(pattern_set: bool, state: ConnectionState, event: ConnectionEvent) -> (step:
    Option<ConnectionStep>)
    ensures
        step == connection_step(pattern_set, state, event),
{
    match state {
        ConnectionState::AwaitingCommand => match event {
            ConnectionEvent::Received(byte) => match decode_command(byte) {
                Some(Command::GetStatus) => {
                    let reply: u8 = if pattern_set {
                        ID_PROTO_SAY_OK
                    } else {
                        ID_PROTO_GRIPE_REGEX
                    };
                    Some(
                        ConnectionStep {
                            next: ConnectionState::Replying,
                            action: ConnectionAction::Reply(reply),
                        },
                    )
                },
                Some(Command::NotifyStop) => Some(
                    ConnectionStep {
                        next: ConnectionState::AwaitingCommand,
                        action: ConnectionAction::SignalStop,
                    },
                ),
                None => Some(
                    ConnectionStep {
                        next: ConnectionState::Closed,
                        action: ConnectionAction::Finish(
                            Some(ConnectionError::UnknownCommand(byte)),
                        ),
                    },
                ),
            },
            ConnectionEvent::EndOfStream | ConnectionEvent::Cancelled => Some(
                ConnectionStep {
                    next: ConnectionState::Closed,
                    action: ConnectionAction::Finish(None),
                },
            ),
            ConnectionEvent::ReadFailed => Some(
                ConnectionStep {
                    next: ConnectionState::Closed,
                    action: ConnectionAction::Finish(Some(ConnectionError::Io)),
                },
            ),
            _ => None,
        },
        ConnectionState::Replying => match event {
            ConnectionEvent::ReplySent => Some(
                ConnectionStep {
                    next: ConnectionState::AwaitingCommand,
                    action: ConnectionAction::Read,
                },
            ),
            ConnectionEvent::ReplyFailed => Some(
                ConnectionStep {
                    next: ConnectionState::Closed,
                    action: ConnectionAction::Finish(Some(ConnectionError::Io)),
                },
            ),
            _ => None,
        },
        ConnectionState::Closed => None,
    }
}

/// Where the accept loop stands.
#[derive(Clone, Copy, Debug, PartialEq, Eq, Structural)]
pub enum ServerState {
    /// Creating the first endpoint.
    Starting,
    /// An endpoint is open: waiting for a peer, the idle wait, or the stop
    /// signal, whichever comes first.
    Listening,
    /// A peer connected: creating the next endpoint before it is served.
    Rearming,
    /// No longer accepting.
    Stopped,
}

/// What the driver reports of the accept loop.
#[derive(Clone, Copy, Debug, PartialEq, Eq, Structural)]
pub enum ServerEvent {
    /// The endpoint was created.
    EndpointReady,
    /// The endpoint could not be created.
    EndpointFailed,
    /// A peer connected to the open endpoint.
    Connected,
    /// Waiting for a peer failed.
    AcceptFailed,
    /// The idle wait ended, by its timer or because its tracker is gone.
    IdleElapsed,
    /// The stop signal was seen.
    Cancelled,
}

/// Why the accept loop failed.
#[derive(Clone, Copy, Debug, PartialEq, Eq, Structural)]
pub enum ServerError {
    /// An endpoint could not be created.
    Endpoint,
    /// Waiting for a peer failed.
    Accept,
}

/// What the driver does next for the accept loop.
#[derive(Clone, Copy, Debug, PartialEq, Eq)]
pub enum ServerAction {
    /// Create an endpoint; `first` asks that it be the first of its name.
    CreateEndpoint { first: bool },
    /// Wait for a peer, the idle wait, or the stop signal.
    Accept,
    /// Hand the connected peer to a handler of its own, with a fresh guard,
    /// then wait as for `Accept`.
    Serve,
    /// Stop accepting: with success on `None`, else with the error. Handlers
    /// that run are left to end by themselves.
    Finish(Option<ServerError>),
}

/// The answer to one event of the accept loop.
#[derive(Clone, Copy, Debug, PartialEq, Eq)]
pub struct ServerStep {
    pub next: ServerState,
    pub action: ServerAction,
}

/// The accept loop: the answer to `event` in `state`, or `None` where that
/// event cannot occur in that state.
pub open spec fn server_step(state: ServerState, event: ServerEvent) -> Option<ServerStep> {
    match (state, event) {
        (ServerState::Starting, ServerEvent::EndpointReady) => Some(
            ServerStep { next: ServerState::Listening, action: ServerAction::Accept },
        ),
        (ServerState::Starting, ServerEvent::EndpointFailed) => Some(
            ServerStep {
                next: ServerState::Stopped,
                action: ServerAction::Finish(Some(ServerError::Endpoint)),
            },
        ),
        (ServerState::Listening, ServerEvent::Connected) => Some(
            ServerStep {
                next: ServerState::Rearming,
                action: ServerAction::CreateEndpoint { first: false },
            },
        ),
        (ServerState::Listening, ServerEvent::AcceptFailed) => Some(
            ServerStep {
                next: ServerState::Stopped,
                action: ServerAction::Finish(Some(ServerError::Accept)),
            },
        ),
        (ServerState::Listening, ServerEvent::IdleElapsed) => Some(
            ServerStep { next: ServerState::Stopped, action: ServerAction::Finish(None) },
        ),
        (ServerState::Listening, ServerEvent::Cancelled) => Some(
            ServerStep { next: ServerState::Stopped, action: ServerAction::Finish(None) },
        ),
        (ServerState::Rearming, ServerEvent::EndpointReady) => Some(
            ServerStep { next: ServerState::Listening, action: ServerAction::Serve },
        ),
        (ServerState::Rearming, ServerEvent::EndpointFailed) => Some(
            ServerStep {
                next: ServerState::Stopped,
                action: ServerAction::Finish(Some(ServerError::Endpoint)),
            },
        ),
        _ => None,
    }
}

/// The state in which the accept loop begins, and its first action.
pub fn start_server() -> (step: ServerStep)
    ensures
        step == (ServerStep {
            next: ServerState::Starting,
            action: ServerAction::CreateEndpoint { first: true },
        }),
{
    ServerStep { next: ServerState::Starting, action: ServerAction::CreateEndpoint { first: true } }
}

/// Answers one event of the accept loop.
pub fn keepalive_server(state: ServerState, event: ServerEvent) -> (step: Option<ServerStep>)
    ensures
        step == server_step(state, event),
{
    match state {
        ServerState::Starting => match event {
            ServerEvent::EndpointReady => Some(
                ServerStep { next: ServerState::Listening, action: ServerAction::Accept },
            ),
            ServerEvent::EndpointFailed => Some(
                ServerStep {
                    next: ServerState::Stopped,
                    action: ServerAction::Finish(Some(ServerError::Endpoint)),
                },
            ),
            _ => None,
        },
        ServerState::Listening => match event {
            ServerEvent::Connected => Some(
                ServerStep {
                    next: ServerState::Rearming,
                    action: ServerAction::CreateEndpoint { first: false },
                },
            ),
            ServerEvent::AcceptFailed => Some(
                ServerStep {
                    next: ServerState::Stopped,
                    action: ServerAction::Finish(Some(ServerError::Accept)),
                },
            ),
            ServerEvent::IdleElapsed | ServerEvent::Cancelled => Some(
                ServerStep { next: ServerState::Stopped, action: ServerAction::Finish(None) },
            ),
            _ => None,
        },
        ServerState::Rearming => match event {
            ServerEvent::EndpointReady => Some(
                ServerStep { next: ServerState::Listening, action: ServerAction::Serve },
            ),
            ServerEvent::EndpointFailed => Some(
                ServerStep {
                    next: ServerState::Stopped,
                    action: ServerAction::Finish(Some(ServerError::Endpoint)),
                },
            ),
            _ => None,
        },
        ServerState::Stopped => None,
    }
}

} // verus!
