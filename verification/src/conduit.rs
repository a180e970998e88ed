//! The client's side of one connection: the state of its socket and what it
//! does with each frame that arrives.
//!
//! The socket itself belongs to the host. A [`Conduit`] keeps its handle and
//! is told of the socket's life by the host's callbacks, one at a time.

use crate::latency::{Latency, LatencyView};
use crate::message::{LatencyTest, LatencyTestError, MAGIC_NUMBER};
use vstd::prelude::*;

verus! {

/// Whether the socket has reported that it is open.
#[derive(Debug, Clone, Copy, PartialEq, Eq, Structural)]
pub enum ConnectionStatus {
    New,
    Connected,
}

/// Why a connection could not be opened.
#[derive(Debug, Clone, Copy, PartialEq, Eq, Structural)]
pub enum WebSocketError {
    /// The address is empty.
    EmptyAddress,
    /// The connection has left its first state.
    AlreadyConnecting,
    /// A socket is held already.
    SocketAlreadyExists,
    /// The host could not make the socket.
    CreationError,
}

impl WebSocketError {
    /// The error in words.
    pub open spec fn text(self) -> Seq<char> {
        match self {
            WebSocketError::EmptyAddress => "URL is empty"@,
            WebSocketError::AlreadyConnecting => "Already connected"@,
            WebSocketError::SocketAlreadyExists => "WebSocket already exists"@,
            WebSocketError::CreationError => "WebSocket Creation Error"@,
        }
    }

    /// The error in words, for a log or a display.
    pub fn message(&self) -> (text: &'static str)
        ensures
            text@ == self.text(),
    {
        match self {
            WebSocketError::EmptyAddress => "URL is empty",
            WebSocketError::AlreadyConnecting => "Already connected",
            WebSocketError::SocketAlreadyExists => "WebSocket already exists",
            WebSocketError::CreationError => "WebSocket Creation Error",
        }
    }
}

/// What the client does with a frame that arrived.
#[derive(Debug, PartialEq, Eq)]
pub enum ClientAction {
    /// Send this frame on the same socket, at once.
    Send(Vec<u8>),
    /// The handshake is complete: hand the measurement to whoever shows it.
    Report(Latency),
    /// The frame is a message that the client does not expect: note it, and
    /// do nothing else.
    Unexpected(LatencyTest),
    /// A reply is due but no socket is held any more: do nothing.
    Idle,
    /// The frame cannot be read: close the connection.
    Close(LatencyTestError),
}

/// A [`ClientAction`] with the frame as a sequence of bytes and the
/// measurement as three numbers.
pub enum ClientActionView {
    Send(Seq<u8>),
    Report(LatencyView),
    Unexpected(LatencyTest),
    Idle,
    Close(LatencyTestError),
}

impl View for ClientAction {
    type V = ClientActionView;

    open spec fn view(&self) -> ClientActionView {
        match self {
            ClientAction::Send(frame) => ClientActionView::Send(frame@),
            ClientAction::Report(latency) => ClientActionView::Report(latency@),
            ClientAction::Unexpected(message) => ClientActionView::Unexpected(*message),
            ClientAction::Idle => ClientActionView::Idle,
            ClientAction::Close(error) => ClientActionView::Close(*error),
        }
    }
}

/// What the client owes to a frame that reads as `parsed` and arrived when its
/// clock stood at `now`, with or without a socket to answer on.
pub open spec fn client_reaction(
    has_socket: bool,
    parsed: Result<LatencyTest, LatencyTestError>,
    now: u128,
) -> ClientActionView {
    match parsed {
        Err(error) => ClientActionView::Close(error),
        Ok(LatencyTest::FirstReply { server_time, .. }) => if has_socket {
            ClientActionView::Send(
                (LatencyTest::FirstResponse {
                    magic: MAGIC_NUMBER,
                    server_time,
                    client_time: now,
                }).wire(),
            )
        } else {
            ClientActionView::Idle
        },
        Ok(LatencyTest::SecondReply { server_time, client_time, server_ack_time, .. }) => {
            ClientActionView::Report(
                (LatencyTest::Final {
                    magic: MAGIC_NUMBER,
                    server_time,
                    client_time,
                    server_ack_time,
                    client_ack_time: now,
                }).latency(),
            )
        },
        Ok(message) => ClientActionView::Unexpected(message),
    }
}

/// One connection of the client. `S` is the host's socket handle.
pub struct Conduit<S> {
    status: ConnectionStatus,
    socket: Option<S>,
    url: String,
}

impl<S> Conduit<S> {
    /// The connection's state.
    pub closed spec fn status(&self) -> ConnectionStatus {
        self.status
    }

    /// The socket handle that the connection holds, if any.
    pub closed spec fn socket(&self) -> Option<S> {
        self.socket
    }

    /// The address that the connection is for.
    pub closed spec fn url(&self) -> Seq<char> {
        self.url@
    }

    /// What stands against opening the connection, if anything: an empty
    /// address first, then a state other than `New`, then a socket that is
    /// held already.
    pub open spec fn open_check(&self) -> Result<(), WebSocketError> {
        if self.url().len() == 0 {
            Err(WebSocketError::EmptyAddress)
        } else if self.status() != ConnectionStatus::New {
            Err(WebSocketError::AlreadyConnecting)
        } else if self.socket() is Some {
            Err(WebSocketError::SocketAlreadyExists)
        } else {
            Ok(())
        }
    }

    /// A connection for `url`, in state `New` and without a socket.
    pub fn new(url: String) -> (conduit: Self)
        ensures
            conduit.status() == ConnectionStatus::New,
            conduit.socket() is None,
            conduit.url() == url@,
    {
        Conduit { status: ConnectionStatus::New, socket: None, url }
    }

    /// The address that the connection is for.
    pub fn address(&self) -> (url: &str)
        ensures
            url@ == self.url(),
    {
        self.url.as_str()
    }

    /// The socket handle that the connection holds, if any.
    pub fn handle(&self) -> (socket: Option<&S>)
        ensures
            socket is Some <==> self.socket() is Some,
            socket is Some ==> *socket.unwrap() == self.socket().unwrap(),
    {
        self.socket.as_ref()
    }

    /// Whether the socket has reported that it is open.
    pub fn is_connected(&self) -> (connected: bool)
        ensures
            connected == (self.status() == ConnectionStatus::Connected),
    {
        self.status == ConnectionStatus::Connected
    }

    /// Says whether a socket may be made for this connection now. The host
    /// makes one only after `Ok`, and hands the outcome to [`Conduit::connect`].
    pub fn check_connect(&self) -> (r: Result<(), WebSocketError>)
        ensures
            r == self.open_check(),
    {
        if self.url.as_str().is_empty() {
            Err(WebSocketError::EmptyAddress)
        } else if self.status != ConnectionStatus::New {
            Err(WebSocketError::AlreadyConnecting)
        } else if self.socket.is_some() {
            Err(WebSocketError::SocketAlreadyExists)
        } else {
            Ok(())
        }
    }

    /// Takes the outcome of making the socket: the handle, or `None` where the
    /// host could not make one. Where nothing stood against opening and a
    /// handle came, the connection holds it from now on; in every other case
    /// the connection is unchanged and the error says why. The state stays
    /// `New` until the socket reports that it is open.
    pub fn connect(&mut self, created: Option<S>) -> (r: Result<(), WebSocketError>)
        ensures
            final(self).status() == old(self).status(),
            final(self).url() == old(self).url(),
            old(self).socket() is Some ==> final(self).socket() == old(self).socket(),
            old(self).open_check() is Err ==> r == old(self).open_check() && final(self).socket()
                == old(self).socket(),
            old(self).open_check() is Ok && created is None ==> r == Err::<(), WebSocketError>(
                WebSocketError::CreationError,
            ) && final(self).socket() == old(self).socket(),
            old(self).open_check() is Ok && created is Some ==> r == Ok::<(), WebSocketError>(())
                && final(self).socket() == created,
    {
        match self.check_connect() {
            Err(error) => Err(error),
            Ok(()) => match created {
                None => Err(WebSocketError::CreationError),
                Some(socket) => {
                    self.socket = Some(socket);
                    Ok(())
                },
            },
        }
    }

    /// The socket has opened: the connection is `Connected`.
    pub fn on_open(&mut self)
        ensures
            final(self).status() == ConnectionStatus::Connected,
            final(self).socket() == old(self).socket(),
            final(self).url() == old(self).url(),
    {
        self.status = ConnectionStatus::Connected;
    }

    /// The socket has closed: the handle is let go and the connection is `New`
    /// again, whatever it was.
    pub fn on_close(&mut self)
        ensures
            final(self).status() == ConnectionStatus::New,
            final(self).socket() is None,
            final(self).url() == old(self).url(),
    {
        self.socket = None;
        self.status = ConnectionStatus::New;
    }

    /// The socket has failed: the connection counts as closed.
    pub fn on_error(&mut self)
        ensures
            final(self).status() == ConnectionStatus::New,
            final(self).socket() is None,
            final(self).url() == old(self).url(),
    {
        self.on_close();
    }

    /// The frame that starts a handshake, where the connection is `Connected`
    /// and holds a socket to send it on; `None`, and nothing to send, where it
    /// is not.
    pub fn start_run(&self) -> (frame: Option<Vec<u8>>)
        ensures
            frame is Some <==> self.status() == ConnectionStatus::Connected && self.socket()
                is Some,
            frame is Some ==> frame.unwrap()@ == (LatencyTest::InitialRequest {
                magic: MAGIC_NUMBER,
            }).wire(),
    {
        if self.is_connected() && self.socket.is_some() {
            Some((LatencyTest::InitialRequest { magic: MAGIC_NUMBER }).encode())
        } else {
            None
        }
    }

    /// Decides what to do with a frame that arrived when the client's clock
    /// stood at `now`. The connection's state is not changed by any message.
    pub fn on_message(&self, frame: &[u8], now: u128) -> (action: ClientAction)
        ensures
            action@ == client_reaction(self.socket() is Some, LatencyTest::parse(frame@), now),
            action matches ClientAction::Report(latency) ==> latency.wf(),
    {
        match LatencyTest::decode(frame) {
            Err(error) => ClientAction::Close(error),
            Ok(LatencyTest::FirstReply { server_time, .. }) => {
                if self.socket.is_some() {
                    let reply = LatencyTest::FirstResponse {
                        magic: MAGIC_NUMBER,
                        server_time,
                        client_time: now,
                    };
                    ClientAction::Send(reply.encode())
                } else {
                    ClientAction::Idle
                }
            },
            Ok(LatencyTest::SecondReply { server_time, client_time, server_ack_time, .. }) => {
                let complete = LatencyTest::Final {
                    magic: MAGIC_NUMBER,
                    server_time,
                    client_time,
                    server_ack_time,
                    client_ack_time: now,
                };
                ClientAction::Report(complete.calculate_latency())
            },
            Ok(message) => ClientAction::Unexpected(message),
        }
    }
}

} // verus!
