use vstd::prelude::*;

use crate::error::SocketError;

verus! {

/// A WebSocket connection of the async runtime over some stream.
#[verifier::external_type_specification]
#[verifier::external_body]
#[verifier::reject_recursive_types(S)]
pub struct ExWebSocketStream<S>(tokio_tungstenite::WebSocketStream<S>);

/// A stream that may or may not be wrapped in TLS.
#[verifier::external_type_specification]
#[verifier::external_body]
#[verifier::reject_recursive_types(S)]
pub struct ExMaybeTlsStream<S>(tokio_tungstenite::MaybeTlsStream<S>);

/// A TCP connection of the async runtime.
#[verifier::external_type_specification]
#[verifier::external_body]
pub struct ExTcpStream(tokio::net::TcpStream);

/// The socket a client talks to its server through.
pub type ClientSocket = tokio_tungstenite::WebSocketStream<
    tokio_tungstenite::MaybeTlsStream<tokio::net::TcpStream>,
>;

/// How many times a client tries to connect again before it gives up.
pub const RECONNECT_ATTEMPTS: u32 = 5;

/// How many seconds a client waits after a failed attempt before the next one.
pub const RECONNECT_DELAY_SECS: u64 = 5;

/// The text of the error for a send without a connection.
pub open spec fn not_connected_text() -> Seq<char> {
    "WebSocket 未连接"@
}

/// The text of the error a client gives up reconnecting with.
pub open spec fn gave_up_text() -> Seq<char> {
    "重连失败，已达最大重试次数"@
}

/// A WebSocket client: the server's URL and the socket, while it holds one.
pub struct WebSocketClient {
    url: String,
    socket: Option<ClientSocket>,
}

impl View for WebSocketClient {
    /// The URL, and the socket the client holds, if any.
    type V = (Seq<char>, Option<ClientSocket>);

    closed spec fn view(&self) -> (Seq<char>, Option<ClientSocket>) {
        (self.url@, self.socket)
    }
}

/// What a client loop does next.
#[derive(PartialEq, Eq, Structural, Debug)]
pub enum LinkStep {
    /// There is no socket: connect again first.
    Reconnect,
    /// There is a socket: read from it or write to it.
    UseSocket,
}

/// What becomes of a client's read loop after one incoming item.
#[derive(PartialEq, Eq, Structural, Debug)]
pub enum ReadStep {
    Continue,
    Stop,
}

/// One item from a client's or a connection's read side.
pub enum Incoming {
    Text(String),
    Binary,
    Ping,
    Pong,
    Close,
    Frame,
    /// Reading failed, with the error's description.
    Failed(String),
    /// The stream ended.
    Ended,
}

impl WebSocketClient {
    /// A client for `url` that holds no socket yet.
    pub fn new(url: String) -> (client: core::result::Result<Self, SocketError>)
        ensures
            client matches Ok(c) && c@ == (url@, None::<ClientSocket>),
    {
        Ok(WebSocketClient { url, socket: None })
    }

    /// The server's URL.
    pub fn url(&self) -> (url: &str)
        ensures
            url@ == self@.0,
    {
        self.url.as_str()
    }

    /// Whether the client holds a socket.
    pub fn is_connected(&self) -> (connected: bool)
        ensures
            connected == self@.1 is Some,
    {
        self.socket.is_some()
    }

    /// Checks that a message can be sent: without a socket the send fails
    /// with a "not connected" error.
    pub fn ensure_connected(&self) -> (ready: core::result::Result<(), SocketError>)
        ensures
            self@.1 is Some <==> ready is Ok,
            self@.1 is None ==> (ready matches Err(SocketError::ErrorMessage(m)) && m@ == not_connected_text()),
    {
        if self.socket.is_some() {
            Ok(())
        } else {
            Err(SocketError::ErrorMessage("WebSocket 未连接".to_owned()))
        }
    }

    /// What the read and ping loops do next: connect again when there is no
    /// socket, use it otherwise.
    pub fn next_step(&self) -> (step: LinkStep)
        ensures
            step == (if self@.1 is Some { LinkStep::UseSocket } else { LinkStep::Reconnect }),
    {
        if self.socket.is_none() {
            LinkStep::Reconnect
        } else {
            LinkStep::UseSocket
        }
    }

    /// Hands the socket out for a send or a read; the client holds none until
    /// it is handed back.
    pub fn take_socket(&mut self) -> (socket: Option<ClientSocket>)
        ensures
            socket == old(self)@.1,
            final(self)@ == (old(self)@.0, None::<ClientSocket>),
    {
        self.socket.take()
    }

    /// Gives the client a socket to hold.
    pub fn set_socket(&mut self, socket: ClientSocket)
        ensures
            final(self)@ == (old(self)@.0, Some(socket)),
    {
        self.socket = Some(socket);
    }
}

/// Whether a read loop goes on after `incoming`: it stops on a close, on a
/// read error and at the end of the stream, and goes on after anything else.
pub fn read_step(incoming: &Incoming) -> (step: ReadStep)
    ensures
        step == ReadStep::Stop <==> (incoming is Close || incoming is Failed || incoming is Ended),
{
    match incoming {
        Incoming::Close => ReadStep::Stop,
        Incoming::Failed(_) => ReadStep::Stop,
        Incoming::Ended => ReadStep::Stop,
        _ => ReadStep::Continue,
    }
}

/// Whether a ping loop goes on after one send: it stops when a ping could
/// not be sent.
pub fn ping_step(sent: bool) -> (step: ReadStep)
    ensures
        step == (if sent { ReadStep::Continue } else { ReadStep::Stop }),
{
    if sent {
        ReadStep::Continue
    } else {
        ReadStep::Stop
    }
}

/// What a reconnect loop does after one attempt.
pub enum ReconnectStep {
    /// The attempt connected.
    Connected,
    /// Wait this many seconds, then try again.
    RetryAfter(u64),
    /// No attempts are left; fail with this error.
    GiveUp(SocketError),
}

/// The attempts a client has left while it reconnects.
pub struct ReconnectState {
    retries: u32,
}

impl ReconnectState {
    /// How many attempts are left.
    pub closed spec fn retries_left(&self) -> nat {
        self.retries as nat
    }

    /// A client never has more attempts left than it started with.
    pub closed spec fn wf(&self) -> bool {
        self.retries <= RECONNECT_ATTEMPTS
    }

    /// How many attempts have failed so far.
    pub open spec fn failures(&self) -> int {
        RECONNECT_ATTEMPTS - self.retries_left()
    }

    /// The state before the first attempt: all attempts are left.
    pub fn new() -> (state: Self)
        ensures
            state.wf(),
            state.retries_left() == RECONNECT_ATTEMPTS,
    {
        ReconnectState { retries: RECONNECT_ATTEMPTS }
    }

    /// How many attempts are left.
    pub fn remaining(&self) -> (count: u32)
        ensures
            count == self.retries_left(),
    {
        self.retries
    }

    /// Whether another attempt may be made.
    pub fn can_attempt(&self) -> (more: bool)
        ensures
            more == (self.retries_left() > 0),
    {
        self.retries > 0
    }

    /// Takes in the outcome of one attempt. A success ends the loop; a
    /// failure uses up an attempt and then waits before the next one, or,
    /// when that was the last attempt, gives up with an error.
    pub fn on_attempt(&mut self, connected: bool) -> (step: ReconnectStep)
        requires
            old(self).wf(),
            old(self).retries_left() > 0,
        ensures
            final(self).wf(),
            connected ==> step is Connected && final(self).retries_left() == old(
                self,
            ).retries_left(),
            !connected ==> final(self).retries_left() == old(self).retries_left() - 1,
            !connected && final(self).retries_left() > 0 ==> step == ReconnectStep::RetryAfter(
                RECONNECT_DELAY_SECS,
            ),
            !connected && final(self).retries_left() == 0 ==> (step matches ReconnectStep::GiveUp(
                SocketError::ErrorMessage(m),
            ) && m@ == gave_up_text()),
    {
        if connected {
            return ReconnectStep::Connected;
        }
        self.retries = self.retries - 1;
        if self.retries > 0 {
            ReconnectStep::RetryAfter(RECONNECT_DELAY_SECS)
        } else {
            ReconnectStep::GiveUp(
                SocketError::ErrorMessage("重连失败，已达最大重试次数".to_owned()),
            )
        }
    }
}

/// A client never makes more than `RECONNECT_ATTEMPTS` attempts: a state
/// that allows another attempt has seen fewer failures than that.
pub proof fn lemma_attempts_bounded(state: ReconnectState)
    requires
        state.wf(),
    ensures
        0 <= state.failures() <= RECONNECT_ATTEMPTS,
        state.retries_left() > 0 ==> state.failures() < RECONNECT_ATTEMPTS,
{
}

} // verus!
