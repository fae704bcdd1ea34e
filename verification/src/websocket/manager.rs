use vstd::prelude::*;

use std::collections::HashMap;
use vstd::std_specs::iter::IteratorSpec;

use crate::error::SocketError;
use crate::websocket::connection::Connection;
use crate::websocket::error_code::{SUCCESS, SYSTEM_ERROR};
use crate::websocket::events::SocketEvents;

verus! {

broadcast use vstd::std_specs::hash::group_hash_axioms;

/// How many clients a manager admits at once.
pub const MAX_CLIENTS: usize = 10000;

/// Whether `recipients` are the connections that a broadcast to
/// `connection_ids` reaches among the live connections `live`: with a list,
/// the listed ids that are live, in the list's order (an id listed twice is
/// reached twice); without one, every live id exactly once.
pub open spec fn broadcast_reaches(
    recipients: Seq<u32>,
    live: Map<u32, Connection>,
    connection_ids: Option<Vec<u32>>,
) -> bool {
    match connection_ids {
        Some(ids) => recipients == ids@.filter(|id: u32| live.contains_key(id)),
        None => {
            &&& recipients.to_set() == live.dom()
            &&& recipients.no_duplicates()
            &&& recipients.len() == live.len()
        },
    }
}

/// The live connections, keyed by client id, with a limit on their number.
pub struct SocketManager {
    connections: HashMap<u32, Connection>,
    max_client: usize,
}

impl View for SocketManager {
    type V = Map<u32, Connection>;

    closed spec fn view(&self) -> Map<u32, Connection> {
        self.connections@
    }
}

/// What the manager's event loop has to carry out after an event.
pub enum ManagerAction {
    /// Answer a handshake on its channel with `code`.
    Reply { reply_to: tokio::sync::oneshot::Sender<u16>, code: u16 },
    /// The connection with this id was dropped.
    Removed(u32),
    /// Queue `(error_code, cmd, message)` on each recipient's connection.
    Deliver { recipients: Vec<u32>, error_code: u16, cmd: u16, message: Option<bytes::BytesMut> },
}

impl SocketManager {
    /// The most connections this manager admits.
    pub closed spec fn max_client(&self) -> nat {
        self.max_client as nat
    }

    /// Every manager admits `MAX_CLIENTS` connections and never holds more.
    pub closed spec fn wf(&self) -> bool {
        &&& self.max_client == MAX_CLIENTS
        &&& self.connections@.len() <= self.max_client
    }

    /// An empty manager that admits up to `MAX_CLIENTS` connections.
    pub fn new() -> (manager: Self)
        ensures
            manager.wf(),
            manager@ == Map::<u32, Connection>::empty(),
            manager@.dom().finite(),
            manager.max_client() == MAX_CLIENTS,
    {
        Self { connections: HashMap::new(), max_client: MAX_CLIENTS }
    }

    /// The number of live connections.
    pub fn len(&self) -> (count: usize)
        ensures
            count == self@.len(),
    {
        self.connections.len()
    }

    /// Whether a connection with this id is live.
    pub fn contains(&self, id: u32) -> (live: bool)
        ensures
            live == self@.contains_key(id),
    {
        self.connections.contains_key(&id)
    }

    /// The live connection with this id, if there is one.
    pub fn connection(&self, id: u32) -> (found: Option<&Connection>)
        ensures
            match found {
                Some(c) => self@.contains_key(id) && *c == self@[id],
                None => !self@.contains_key(id),
            },
    {
        self.connections.get(&id)
    }

    /// Admits a connection, keyed by its id (a live connection with the same
    /// id is replaced). When the manager already holds its limit, nothing
    /// changes and the connection is refused.
    pub fn add_connection(&mut self, conn: Connection) -> (result: core::result::Result<(), SocketError>)
        requires
            old(self).wf(),
        ensures
            final(self).wf(),
            final(self).max_client() == old(self).max_client(),
            final(self)@.dom().finite(),
            old(self)@.len() < old(self).max_client() ==> result is Ok && final(self)@ == old(
                self,
            )@.insert(conn.id, conn),
            old(self)@.len() < old(self).max_client() ==> final(self)@.len() == old(self)@.len()
                + if old(self)@.contains_key(conn.id) {
                0int
            } else {
                1int
            },
            old(self)@.len() >= old(self).max_client() ==> final(self)@ == old(self)@ && (
            result matches Err(SocketError::SystemError(message)) && message@
                == "Too many connections"@),
    {
        if self.connections.len() >= self.max_client {
            return Err(SocketError::SystemError("Too many connections".to_owned()));
        }
        let id = conn.id;
        self.connections.insert(id, conn);
        proof {
            lemma_insert_len(old(self).connections@, id, conn);
        }
        Ok(())
    }

    /// Drops the live connection with this id (the id must be live).
    pub fn remove_connection(&mut self, id: u32)
        requires
            old(self).wf(),
            old(self)@.contains_key(id),
        ensures
            final(self).wf(),
            final(self).max_client() == old(self).max_client(),
            final(self)@ == old(self)@.remove(id),
            final(self)@.dom().finite(),
            final(self)@.len() == old(self)@.len() - 1,
    {
        let removed = self.connections.remove(&id);
        proof {
            assert(old(self).connections@.remove(id).len() < old(self).connections@.len());
        }
    }

    /// The connections that a broadcast reaches: with a list of ids, those of
    /// them that are live, in the list's order; without one, every live
    /// connection once, in no particular order.
    pub fn broadcast_recipients(&self, connection_ids: Option<Vec<u32>>) -> (recipients: Vec<u32>)
        ensures
            broadcast_reaches(recipients@, self@, connection_ids),
    {
        match connection_ids {
            Some(ids) => {
                let mut recipients: Vec<u32> = Vec::new();
                let mut i: usize = 0;
                while i < ids.len()
                    invariant
                        i <= ids@.len(),
                        connection_ids == Some(ids),
                        recipients@ == ids@.subrange(0, i as int).filter(
                            |id: u32| self@.contains_key(id),
                        ),
                    decreases ids.len() - i,
                {
                    let id = ids[i];
                    proof {
                        assert(ids@.subrange(0, i + 1).drop_last() =~= ids@.subrange(0, i as int));
                        reveal_with_fuel(Seq::filter, 1);
                    }
                    if self.connections.contains_key(&id) {
                        recipients.push(id);
                    }
                    i = i + 1;
                }
                proof {
                    assert(ids@.subrange(0, ids@.len() as int) =~= ids@);
                }
                recipients
            },
            None => {
                let mut recipients: Vec<u32> = Vec::new();
                let ghost keys = vstd::std_specs::hash::spec_keys_iter(&self.connections).remaining();
                for id in it: self.connections.keys()
                    invariant
                        it.seq() == keys,
                        recipients@ == keys.take(it.index()).unref(),
                {
                    recipients.push(*id);
                    assert(recipients@ =~= keys.take(it.index() + 1).unref());
                }
                assert(recipients@ =~= keys.unref());
                recipients
            },
        }
    }
}

impl SocketManager {
    /// Carries out one event of the manager's loop and says what is left to
    /// do: a handshake admits the connection when there is room and is
    /// answered with the success code, or with the system error code when the
    /// manager is full; a disconnect drops the connection (its id must be
    /// live); a broadcast changes nothing and names its recipients.
    pub fn handle_event(&mut self, event: SocketEvents) -> (action: ManagerAction)
        requires
            old(self).wf(),
            event matches SocketEvents::Disconnect(id) ==> old(self)@.contains_key(id),
        ensures
            final(self).wf(),
            final(self).max_client() == old(self).max_client(),
            final(self)@.dom().finite(),
            match event {
                SocketEvents::Handshake(reply_to, conn) => if old(self)@.len() < old(self).max_client() {
                    &&& final(self)@ == old(self)@.insert(conn.id, conn)
                    &&& action == (ManagerAction::Reply { reply_to, code: SUCCESS })
                } else {
                    &&& final(self)@ == old(self)@
                    &&& action == (ManagerAction::Reply { reply_to, code: SYSTEM_ERROR })
                },
                SocketEvents::Disconnect(id) => {
                    &&& final(self)@ == old(self)@.remove(id)
                    &&& action == ManagerAction::Removed(id)
                },
                SocketEvents::Broadcast { error_code, cmd, message, connection_ids } => {
                    &&& final(self)@ == old(self)@
                    &&& action matches ManagerAction::Deliver { recipients, error_code: e, cmd: c, message: m }
                    &&& e == error_code && c == cmd && m == message
                    &&& broadcast_reaches(recipients@, old(self)@, connection_ids)
                },
            },
    {
        match event {
            SocketEvents::Handshake(reply_to, conn) => match self.add_connection(conn) {
                Err(_) => ManagerAction::Reply { reply_to, code: SYSTEM_ERROR },
                Ok(_) => ManagerAction::Reply { reply_to, code: SUCCESS },
            },
            SocketEvents::Disconnect(id) => {
                self.remove_connection(id);
                ManagerAction::Removed(id)
            },
            SocketEvents::Broadcast { error_code, cmd, message, connection_ids } => {
                let recipients = self.broadcast_recipients(connection_ids);
                ManagerAction::Deliver { recipients, error_code, cmd, message }
            },
        }
    }
}

/// A well-formed manager (every manager that `new` made and the other
/// methods changed) admits `MAX_CLIENTS` connections and never holds more.
pub proof fn lemma_capacity_respected(manager: SocketManager)
    requires
        manager.wf(),
    ensures
        manager.max_client() == MAX_CLIENTS,
        manager@.len() <= MAX_CLIENTS,
        manager@.dom().finite(),
{
}

/// Admitting a connection whose id is not live and then dropping that id
/// gives back the connections from before.
pub proof fn lemma_admit_then_drop(before: Map<u32, Connection>, conn: Connection)
    requires
        !before.contains_key(conn.id),
    ensures
        before.insert(conn.id, conn).remove(conn.id) == before,
{
    assert(before.insert(conn.id, conn).remove(conn.id) =~= before);
}

/// Inserting a key grows a finite map by one entry when the key is new, and
/// leaves its size alone when the key was there.
proof fn lemma_insert_len(m: Map<u32, Connection>, k: u32, v: Connection)
    requires
        m.dom().finite(),
    ensures
        m.insert(k, v).len() == m.len() + if m.contains_key(k) {
            0int
        } else {
            1int
        },
{
    if m.contains_key(k) {
        assert(m.insert(k, v).dom() =~= m.dom());
    } else {
        assert(m.insert(k, v).dom() =~= m.dom().insert(k));
    }
}

} // verus!
