//! Connection bookkeeping, routing and wire framing for a small WebSocket
//! service, with the rules that drive its client and server loops.
pub mod error;
pub mod websocket;
