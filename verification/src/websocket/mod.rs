//! The client, the server's connection tasks and manager, and their framing.
pub mod client;
pub mod connection;
pub mod error_code;
pub mod events;
pub mod frame;
pub mod header_parser;
pub mod manager;
pub mod message;
pub mod router;
pub mod server;
