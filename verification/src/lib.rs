//! The verified core of a local-network peer-discovery and UDP-messaging
//! experiment.
//!
//! The library holds the decision logic of a small zeroconf experiment: the
//! configuration parsing, the selection of a local interface address, the
//! bounds-checked outbound message buffer, the bounded outbound queue, and
//! the reaction to peer-resolution events. The surrounding process (sockets,
//! the mDNS daemon, the async executor) lives outside the library and feeds
//! it plain values.

pub mod address;
pub mod config;
pub mod discovery;
pub mod message;
pub mod queue;
