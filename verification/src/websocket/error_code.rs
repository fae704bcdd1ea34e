use vstd::prelude::*;

verus! {

/// Reply code for an accepted handshake and for a request that a handler served.
pub const SUCCESS: u16 = 0;

/// Reply code for a refused handshake and for a request that failed.
pub const SYSTEM_ERROR: u16 = 1;

} // verus!
