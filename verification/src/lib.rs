//! Verified core of a peer-to-peer multicast chat relay.
//!
//! Every participant on one multicast group receives every message sent by
//! every other participant; there is no central server. The heart of the
//! crate is the network engine: it multiplexes an outbound message queue
//! against inbound datagrams with a fixed outbound-first priority,
//! republishes decoded inbound text to a shared transcript, and terminates
//! through a race-free handshake in which dropping the last producer handle
//! is the sole shutdown signal.
//!
//! The crate verifies the engine's decisions and state; the calling program
//! supplies the socket, the threads and the waiting, feeding events in and
//! carrying actions out.

pub mod chat_log;
pub mod config;
mod decode;
pub mod engine;
pub mod multiplex;
pub mod queue;
pub mod session;
