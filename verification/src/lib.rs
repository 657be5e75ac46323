//! Anonymous symmetric-key authenticated key exchange.
//!
//! A group of registered clients shares a long-term credential pool with a
//! single server; any one client can run a six-round handshake with the
//! server to derive a shared session key and session identifier, while the
//! server's broadcast messages are byte-identical regardless of which client
//! is transacting.

pub mod ccapke;
pub mod client;
pub mod commitment;
pub mod config;
pub mod errors;
pub mod hash;
pub mod pke;
pub mod prf;
pub mod protocol;
pub mod server;
pub mod sig;
pub mod utils;
