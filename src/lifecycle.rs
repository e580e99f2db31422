//! When each side may exchange gameplay messages: the server's run state and
//! the client's session state, as transition functions whose actions the
//! caller carries out.
use vstd::prelude::*;
use crate::handshake::{opt_view, C2SHandshakeStart, RoomAuthentication, S2CHandshakeResult};
use crate::server::{AvatarView, ServerWorld, WorldView};
use crate::tracker::TrackedView;

verus! {

/// Run state of the server.
#[derive(Clone, Copy, Debug, PartialEq, Eq, Structural)]
pub enum ServerState {
    NotRunning,
    Running,
    Stopped,
    Errored,
}

/// Operator commands.
pub enum ServerLifecycleCmd {
    StartServer { bind_addr: String, room_password: Option<String> },
    StopServer,
}

/// What the server's run state reacts to: operator commands and the outcome
/// of binding the transport.
pub enum LifecycleEvent {
    Command(ServerLifecycleCmd),
    TransportBound,
    TransportFailed,
}

/// What the caller does after a transition: bind the transport at an
/// address and install a fresh world, or sever every connection.
pub enum LifecycleAction {
    Nothing,
    Start { bind_addr: String, world: ServerWorld },
    DisconnectAll,
}

/// The server's run state and the health of its transport.
pub struct ServerRun {
    pub state: ServerState,
    pub transport_up: bool,
}

/// Whether a start command is taken in state `s`.
pub open spec fn can_start(s: ServerState) -> bool {
    s == ServerState::NotRunning || s == ServerState::Stopped
}

/// Whether a world view is that of a freshly started server.
pub open spec fn fresh_world(w: WorldView, password: Option<Seq<char>>) -> bool {
    &&& w.required_password == password
    &&& w.awaiting == Set::<u64>::empty()
    &&& w.joined == Map::<u64, TrackedView>::empty()
    &&& w.avatars == Map::<u64, AvatarView>::empty()
}

/// The run state after `e`: a start command enters `Running` from
/// `NotRunning` or `Stopped` (the transport not yet up); a stop command
/// leaves `Running` for `Stopped`; a bound transport comes up while running;
/// a failed one moves a running server to `Errored`, which nothing leaves.
/// Anything else changes nothing.
pub open spec fn next_run(r: ServerRun, e: LifecycleEvent) -> ServerRun {
    match e {
        LifecycleEvent::Command(ServerLifecycleCmd::StartServer { .. }) => if can_start(r.state) {
            ServerRun { state: ServerState::Running, transport_up: false }
        } else {
            r
        },
        LifecycleEvent::Command(ServerLifecycleCmd::StopServer) => if r.state
            == ServerState::Running {
            ServerRun { state: ServerState::Stopped, transport_up: false }
        } else {
            r
        },
        LifecycleEvent::TransportBound => if r.state == ServerState::Running {
            ServerRun { transport_up: true, ..r }
        } else {
            r
        },
        LifecycleEvent::TransportFailed => if r.state == ServerState::Running {
            ServerRun { state: ServerState::Errored, transport_up: false }
        } else {
            r
        },
    }
}

impl ServerRun {
    /// A server that has not been started.
    pub fn new() -> (r: ServerRun)
        ensures
            r.state == ServerState::NotRunning,
            !r.transport_up,
    {
        ServerRun { state: ServerState::NotRunning, transport_up: false }
    }

    /// Whether gameplay messages and the tick pipeline may run.
    pub fn gameplay_enabled(&self) -> (r: bool)
        ensures
            r == (self.state == ServerState::Running && self.transport_up),
    {
        self.state == ServerState::Running && self.transport_up
    }

    /// Applies an event; returns what the caller must do.
    pub fn step(&mut self, e: LifecycleEvent) -> (a: LifecycleAction)
        ensures
            *final(self) == next_run(*old(self), e),
            match e {
                LifecycleEvent::Command(
                    ServerLifecycleCmd::StartServer { bind_addr, room_password },
                ) => if can_start(old(self).state) {
                    match a {
                        LifecycleAction::Start { bind_addr: b, world } => b@ == bind_addr@
                            && world.wf() && fresh_world(world@, opt_view(room_password)),
                        _ => false,
                    }
                } else {
                    a is Nothing
                },
                LifecycleEvent::Command(ServerLifecycleCmd::StopServer) => if old(self).state
                    == ServerState::Running {
                    a is DisconnectAll
                } else {
                    a is Nothing
                },
                _ => a is Nothing,
            },
    {
        match e {
            LifecycleEvent::Command(ServerLifecycleCmd::StartServer { bind_addr, room_password }) => {
                if self.state == ServerState::NotRunning || self.state == ServerState::Stopped {
                    self.state = ServerState::Running;
                    self.transport_up = false;
                    let world = ServerWorld::new(RoomAuthentication::from_password(room_password));
                    LifecycleAction::Start { bind_addr, world }
                } else {
                    LifecycleAction::Nothing
                }
            },
            LifecycleEvent::Command(ServerLifecycleCmd::StopServer) => {
                if self.state == ServerState::Running {
                    self.state = ServerState::Stopped;
                    self.transport_up = false;
                    LifecycleAction::DisconnectAll
                } else {
                    LifecycleAction::Nothing
                }
            },
            LifecycleEvent::TransportBound => {
                if self.state == ServerState::Running {
                    self.transport_up = true;
                }
                LifecycleAction::Nothing
            },
            LifecycleEvent::TransportFailed => {
                if self.state == ServerState::Running {
                    self.state = ServerState::Errored;
                    self.transport_up = false;
                }
                LifecycleAction::Nothing
            },
        }
    }
}

/// Client session states.
#[derive(Clone, Copy, Debug, PartialEq, Eq, Structural)]
pub enum ConnectionState {
    ConnectServerMenu,
    TryingConnection,
    SendingHandshake,
    AwaitingHandshakeResponse,
    InGame,
}

/// Why setting up the client's transport failed, with the underlying error text.
pub enum ConnectError {
    BindLocalSocket(String),
    ParseServerAddress(String),
    Transport(String),
}

/// The text shown for a failed connection attempt.
pub open spec fn connect_error_text(e: ConnectError) -> Seq<char> {
    match e {
        ConnectError::BindLocalSocket(d) => "Error binding to local socket: "@ + d@,
        ConnectError::ParseServerAddress(d) => "Error parsing the given server address: "@ + d@,
        ConnectError::Transport(d) => "Could not connect to server: "@ + d@,
    }
}

/// The text shown for a rejected handshake.
pub open spec fn rejection_text(reason: Seq<char>) -> Seq<char> {
    "The server rejected your connection for reason: "@ + reason
}

impl ConnectError {
    /// The text shown for this failure.
    pub fn message(&self) -> (r: String)
        ensures
            r@ == connect_error_text(*self),
    {
        match self {
            ConnectError::BindLocalSocket(d) => {
                let mut s = String::from_str("Error binding to local socket: ");
                s.append(d.as_str());
                s
            },
            ConnectError::ParseServerAddress(d) => {
                let mut s = String::from_str("Error parsing the given server address: ");
                s.append(d.as_str());
                s
            },
            ConnectError::Transport(d) => {
                let mut s = String::from_str("Could not connect to server: ");
                s.append(d.as_str());
                s
            },
        }
    }
}

/// What the user typed in the connection form, and the last error to show.
pub struct ConnectServerMenuInput {
    pub error_message: Option<String>,
    pub server_address: String,
    pub server_password: String,
    pub display_name: String,
}

/// The client's session: its state, its form, and the identifier the
/// server gave it.
pub struct ClientSession {
    pub state: ConnectionState,
    pub input: ConnectServerMenuInput,
    pub client_id: Option<u64>,
}

impl ClientSession {
    /// A session showing an empty connection form.
    pub fn new() -> (r: ClientSession)
        ensures
            r.state == ConnectionState::ConnectServerMenu,
            r.input.error_message is None,
            r.input.server_address@.len() == 0,
            r.input.server_password@.len() == 0,
            r.input.display_name@.len() == 0,
            r.client_id is None,
    {
        ClientSession {
            state: ConnectionState::ConnectServerMenu,
            input: ConnectServerMenuInput {
                error_message: None,
                server_address: String::new(),
                server_password: String::new(),
                display_name: String::new(),
            },
            client_id: None,
        }
    }

    /// The user pressed "Connect": from the form, a connection is attempted.
    pub fn submit(&mut self)
        ensures
            final(self).state == (if old(self).state == ConnectionState::ConnectServerMenu {
                ConnectionState::TryingConnection
            } else {
                old(self).state
            }),
            final(self).input == old(self).input,
            final(self).client_id == old(self).client_id,
    {
        if self.state == ConnectionState::ConnectServerMenu {
            self.state = ConnectionState::TryingConnection;
        }
    }

    /// The outcome of setting up the transport. Success moves on to sending
    /// the handshake; a failure returns to the form with the error shown.
    /// Outside `TryingConnection` nothing changes.
    pub fn on_connect_result(&mut self, result: Result<(), ConnectError>)
        ensures
            final(self).client_id == old(self).client_id,
            final(self).input.server_address == old(self).input.server_address,
            final(self).input.server_password == old(self).input.server_password,
            final(self).input.display_name == old(self).input.display_name,
            old(self).state != ConnectionState::TryingConnection ==> final(self).state == old(
                self,
            ).state && final(self).input.error_message == old(self).input.error_message,
            old(self).state == ConnectionState::TryingConnection ==> match result {
                Ok(()) => final(self).state == ConnectionState::SendingHandshake
                    && final(self).input.error_message == old(self).input.error_message,
                Err(e) => final(self).state == ConnectionState::ConnectServerMenu
                    && final(self).input.error_message is Some
                    && final(self).input.error_message.unwrap()@ == connect_error_text(e),
            },
    {
        if self.state != ConnectionState::TryingConnection {
            return;
        }
        match result {
            Ok(()) => {
                self.state = ConnectionState::SendingHandshake;
            },
            Err(e) => {
                self.input.error_message = Some(e.message());
                self.state = ConnectionState::ConnectServerMenu;
            },
        }
    }

    /// Builds the join request once the transport is connected, and waits
    /// for the answer. An empty password field sends no password. Outside
    /// `SendingHandshake` nothing is sent.
    pub fn send_handshake(&mut self) -> (r: Option<C2SHandshakeStart>)
        ensures
            final(self).input == old(self).input,
            final(self).client_id == old(self).client_id,
            old(self).state != ConnectionState::SendingHandshake ==> r is None && final(self).state
                == old(self).state,
            old(self).state == ConnectionState::SendingHandshake ==> {
                &&& final(self).state == ConnectionState::AwaitingHandshakeResponse
                &&& r is Some
                &&& r.unwrap().display_name@ == old(self).input.display_name@
                &&& opt_view(r.unwrap().room_password) == (if old(
                    self,
                ).input.server_password@.len() == 0 {
                    None::<Seq<char>>
                } else {
                    Some(old(self).input.server_password@)
                })
            },
    {
        if self.state != ConnectionState::SendingHandshake {
            return None;
        }
        let room_password = if self.input.server_password.as_str().unicode_len() == 0 {
            None
        } else {
            Some(self.input.server_password.clone())
        };
        let request = C2SHandshakeStart { display_name: self.input.display_name.clone(), room_password };
        self.state = ConnectionState::AwaitingHandshakeResponse;
        Some(request)
    }

    /// The server's answer. Acceptance enters the game and keeps the
    /// identifier; rejection returns to the form with the reason shown.
    /// Outside `AwaitingHandshakeResponse` the answer is ignored.
    pub fn recv_handshake_result(&mut self, result: &S2CHandshakeResult)
        ensures
            final(self).input.server_address == old(self).input.server_address,
            final(self).input.server_password == old(self).input.server_password,
            final(self).input.display_name == old(self).input.display_name,
            old(self).state != ConnectionState::AwaitingHandshakeResponse ==> final(self).state
                == old(self).state && final(self).client_id == old(self).client_id
                && final(self).input.error_message == old(self).input.error_message,
            old(self).state == ConnectionState::AwaitingHandshakeResponse ==> match result {
                S2CHandshakeResult::ConnectionAccepted { client_id } => final(self).state
                    == ConnectionState::InGame && final(self).client_id == Some(*client_id)
                    && final(self).input.error_message == old(self).input.error_message,
                S2CHandshakeResult::ConnectionRejected { reason } => final(self).state
                    == ConnectionState::ConnectServerMenu && final(self).client_id == old(
                    self,
                ).client_id && final(self).input.error_message is Some
                    && final(self).input.error_message.unwrap()@ == rejection_text(reason@),
            },
    {
        if self.state != ConnectionState::AwaitingHandshakeResponse {
            return;
        }
        match result {
            S2CHandshakeResult::ConnectionAccepted { client_id } => {
                self.client_id = Some(*client_id);
                self.state = ConnectionState::InGame;
            },
            S2CHandshakeResult::ConnectionRejected { reason } => {
                let mut message = String::from_str("The server rejected your connection for reason: ");
                message.append(reason.as_str());
                self.input.error_message = Some(message);
                self.state = ConnectionState::ConnectServerMenu;
            },
        }
    }

    /// Whether gameplay input is collected and sent.
    pub fn in_game(&self) -> (r: bool)
        ensures
            r == (self.state == ConnectionState::InGame),
    {
        self.state == ConnectionState::InGame
    }
}

} // verus!
