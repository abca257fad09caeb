//! Connection establishment core of an HTTP client: the CONNECT tunnel
//! handshake, SOCKS and proxy routing decisions, and the transport metadata
//! handed to the HTTP engine.
pub mod bytes;
pub mod compose;
pub mod error;
pub mod meta;
pub mod request;
pub mod route;
pub mod trace;
pub mod tunnel;
