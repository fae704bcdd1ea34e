use vstd::prelude::*;

use crate::websocket::client::Incoming;
use crate::websocket::error_code::SUCCESS;
use crate::websocket::frame::{buffer_contents, decode_request, request_parts};

verus! {

/// The sending half of a bounded channel of the async runtime.
#[verifier::external_type_specification]
#[verifier::external_body]
#[verifier::reject_recursive_types(T)]
pub struct ExMpscSender<T>(tokio::sync::mpsc::Sender<T>);

/// A reply to send on a connection: error code, command, and the data, if any.
pub type Msg = (u16, u16, Option<bytes::BytesMut>);

/// Where the replies for one connection are queued.
pub type MsgSender = tokio::sync::mpsc::Sender<Msg>;

/// A client connection as the manager knows it: its id and the queue that
/// its writer task drains.
#[derive(Debug)]
pub struct Connection {
    pub id: u32,
    pub msg_sender: MsgSender,
}

impl Connection {
    /// A connection with the given id that replies through `msg_sender`.
    pub fn new(id: u32, msg_sender: MsgSender) -> (connection: Self)
        ensures
            connection.id == id,
            connection.msg_sender == msg_sender,
    {
        Self { id, msg_sender }
    }
}

/// Whether a connection goes on after its handshake: only when the manager
/// answered, and answered with the success code. A dropped reply channel
/// (`None`) or any other code ends the connection quietly.
pub fn handshake_proceeds(reply: Option<u16>) -> (proceed: bool)
    ensures
        proceed <==> reply == Some(SUCCESS),
{
    match reply {
        Some(code) => code == SUCCESS,
        None => false,
    }
}

/// What a connection's read loop does after one read.
#[derive(PartialEq, Eq, Structural, Debug)]
pub enum ConnectionStep {
    /// A message came: handle it and read on.
    Handle,
    /// Reading failed: end the connection with the WebSocket error, without
    /// telling the manager.
    Fail,
    /// The stream ended: tell the manager that the client went away.
    Disconnect,
}

/// Decides how a connection's read loop goes on: a read error ends it with
/// that error, the end of the stream ends it with a disconnect, and any
/// message is handled.
pub fn connection_step(incoming: &Incoming) -> (step: ConnectionStep)
    ensures
        step == (match incoming {
            Incoming::Failed(_) => ConnectionStep::Fail,
            Incoming::Ended => ConnectionStep::Disconnect,
            _ => ConnectionStep::Handle,
        }),
{
    match incoming {
        Incoming::Failed(_) => ConnectionStep::Fail,
        Incoming::Ended => ConnectionStep::Disconnect,
        _ => ConnectionStep::Handle,
    }
}

/// What a connection task does with one message from its client.
pub enum InboundAction {
    /// Hand the payload to the handler of `cmd`.
    Dispatch(u16, bytes::BytesMut),
    /// A binary message too short to hold a command, of this many bytes.
    TooShort(usize),
    /// Not a binary message: nothing to do.
    Ignore,
}

/// Decides what to do with a client's message, given the bytes of a binary
/// message (`None` for any other kind): a binary message is a request made
/// of a big-endian command number and a payload; one of fewer than two bytes
/// is rejected; other kinds of message are ignored.
pub fn inbound_action(binary: Option<&[u8]>) -> (action: InboundAction)
    ensures
        match binary {
            None => action is Ignore,
            Some(data) => match request_parts(data@) {
                None => action == InboundAction::TooShort(data@.len() as usize),
                Some((cmd, payload)) => action matches InboundAction::Dispatch(c, p) && c == cmd
                    && buffer_contents(p) == payload,
            },
        },
{
    match binary {
        None => InboundAction::Ignore,
        Some(data) => match decode_request(data) {
            Some((cmd, payload)) => InboundAction::Dispatch(cmd, payload),
            None => InboundAction::TooShort(data.len()),
        },
    }
}

} // verus!
