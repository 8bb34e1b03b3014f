//! A client for a publish/subscribe relay protocol spoken over a WebSocket.
//!
//! The library holds the decisions of the client: the wire frames of the
//! outbound commands, the connection's state machine, the stop condition
//! supplied by the caller, and the authentication-retry exchange. The I/O
//! (socket, timer, channels, signing) is driven from outside, which hands the
//! outcome of each step back as a plain value.
pub mod message;
pub mod codec;
pub mod exit;
pub mod connection;
pub mod auth;
pub mod address;
pub mod diagnostic;
pub mod handshake;

pub use address::url_to_host_and_uri;
pub use diagnostic::Prefixes;
pub use message::Command;
