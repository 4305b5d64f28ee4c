//! A verified core for a minimal SOCKS5 proxy.
//!
//! The crate covers the protocol pipeline of one accepted connection:
//! greeting parse, method selection, command parse, address resolution
//! tie-break, reply encoding, and the per-connection state machine that
//! orders those steps.  All I/O (sockets, DNS, the byte relay itself) is
//! left to the embedding program, which drives [`handler::Handler`] with
//! events and performs the actions it returns.

pub mod addr;
pub mod auth;
pub mod command;
pub mod error;
pub mod greeting;
pub mod handler;
pub mod relay;
pub mod reply;

pub use addr::TargetAddress;
pub use error::Socks5Error;
