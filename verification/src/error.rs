use vstd::prelude::*;

verus! {

/// The error of the service helpers (token validation).
#[verifier::external_type_specification]
#[verifier::external_body]
pub struct ExServiceError(service_utils_rs::error::Error);

/// The error of the WebSocket protocol layer.
#[verifier::external_type_specification]
#[verifier::external_body]
pub struct ExWsError(tokio_tungstenite::tungstenite::Error);

/// The error of the operating system's I/O.
#[verifier::external_type_specification]
#[verifier::external_body]
pub struct ExIoError(std::io::Error);

/// Everything that can go wrong in the client, the server and the
/// connection manager.
#[derive(Debug)]
pub enum SocketError {
    /// Token validation failed in the service helpers.
    JwtError(service_utils_rs::error::Error),
    /// The WebSocket layer failed.
    WsError(tokio_tungstenite::tungstenite::Error),
    /// Socket I/O failed.
    IoError(std::io::Error),
    /// A failure described in place, with the source position that raised it.
    CustomError { message: String, line: u32, column: u32 },
    /// A request was answered with an error code.
    ErrorCode(u16),
    /// A failure described by a message.
    ErrorMessage(String),
    /// The manager refused an operation.
    SystemError(String),
}

} // verus!
