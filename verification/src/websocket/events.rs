use vstd::prelude::*;

use crate::websocket::connection::Connection;

verus! {

/// The sending half of a one-shot channel of the async runtime.
#[verifier::external_type_specification]
#[verifier::external_body]
#[verifier::reject_recursive_types(T)]
pub struct ExOneshotSender<T>(tokio::sync::oneshot::Sender<T>);

/// What connection tasks tell the connection manager.
pub enum SocketEvents {
    /// A client finished its WebSocket handshake; the manager answers on the
    /// channel with a reply code.
    Handshake(tokio::sync::oneshot::Sender<u16>, Connection),
    /// The client with this id went away.
    Disconnect(u32),
    /// Send a reply to the listed connections, or to all when no list is given.
    Broadcast {
        error_code: u16,
        cmd: u16,
        message: Option<bytes::BytesMut>,
        connection_ids: Option<Vec<u32>>,
    },
}

} // verus!
