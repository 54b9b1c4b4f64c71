//! Core of a SOCKS5 proxy front-end that either dials its targets directly or
//! forwards them over an authenticated, encrypted tunnel to a relay server.
//!
//! The crate performs no I/O. Callers feed it the bytes and outcomes they
//! observe and carry out the actions it answers with.

pub mod consts;
pub mod wire;
pub mod reply;
pub mod error;
pub mod parsed;
pub mod address;
pub mod request;
pub mod socks;
pub mod frame;
pub mod keys;
pub mod handshake;
pub mod message;
pub mod tunnel;
