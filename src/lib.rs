//! Peer rendezvous and transport core: a waiting pool that pairs two
//! endpoints and tells each where the other is, the text form of an endpoint
//! carried in those replies, session settings, and the accounting of a
//! best-effort datagram link.

pub mod config;
pub mod endpoint;
pub mod rendezvous;
pub mod transport;
