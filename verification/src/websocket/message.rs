use vstd::prelude::*;

verus! {

/// What a client asks its writer task to send.
pub enum SendMessage {
    Ping(),
    Binary(Vec<u8>),
    Text(String),
    Json(String),
}

} // verus!
