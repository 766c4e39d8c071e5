//! Core of a readiness-driven HTTP/1.1 server engine.
//!
//! The engine is driven by a host event loop: the host tells it when a
//! socket is readable or writable, and the engine answers with commands
//! (arm or disarm readiness, close a socket, invoke the application).
//! All protocol logic - request parsing, body framing, response
//! serialization, keep-alive - lives here; the host performs the I/O.

pub mod bridge;
pub mod bytes_util;
pub mod channel;
pub mod command;
pub mod h1;
pub mod handler;
pub mod manager;
pub mod net;
pub mod parse;
pub mod response;
pub mod scope;
pub mod selector;
pub mod server;
pub mod settings;
pub mod status;
pub mod transport;
