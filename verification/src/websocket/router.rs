use vstd::prelude::*;

use std::collections::HashMap;

use crate::error::SocketError;

verus! {

broadcast use vstd::std_specs::hash::group_hash_axioms;

/// The error code that answers a command no handler is registered for.
pub const UNKNOWN_COMMAND: u16 = 1;

/// The handlers of a server, one per command number.
pub struct Router<H> {
    routes: HashMap<u16, H>,
}

impl<H> View for Router<H> {
    type V = Map<u16, H>;

    closed spec fn view(&self) -> Map<u16, H> {
        self.routes@
    }
}

impl<H> Router<H> {
    /// A router with no routes.
    pub fn new() -> (router: Self)
        ensures
            router@ == Map::<u16, H>::empty(),
    {
        Self { routes: HashMap::new() }
    }

    /// Registers `handler` for `cmd`, replacing the one registered before,
    /// and hands the router back for further registrations.
    pub fn add_route(&mut self, cmd: u16, handler: H) -> (router: &mut Self)
        ensures
            router@ == old(self)@.insert(cmd, handler),
            final(self)@ == final(router)@,
    {
        self.routes.insert(cmd, handler);
        self
    }

    /// The handler for `cmd`, or the error code for an unknown command.
    pub fn handler_for(&self, cmd: u16) -> (found: core::result::Result<&H, SocketError>)
        ensures
            match found {
                Ok(handler) => self@.contains_key(cmd) && *handler == self@[cmd],
                Err(e) => !self@.contains_key(cmd) && e == SocketError::ErrorCode(UNKNOWN_COMMAND),
            },
    {
        match self.routes.get(&cmd) {
            Some(handler) => Ok(handler),
            None => Err(SocketError::ErrorCode(UNKNOWN_COMMAND)),
        }
    }
}

/// After a handler is registered for a command, that command resolves to it,
/// and every other command resolves as before.
pub proof fn lemma_route_registered<H>(routes: Map<u16, H>, cmd: u16, handler: H, other: u16)
    requires
        other != cmd,
    ensures
        routes.insert(cmd, handler).contains_key(cmd),
        routes.insert(cmd, handler)[cmd] == handler,
        routes.insert(cmd, handler).contains_key(other) == routes.contains_key(other),
        routes.contains_key(other) ==> routes.insert(cmd, handler)[other] == routes[other],
{
}

} // verus!
