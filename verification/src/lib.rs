//! Core of a small peer-to-peer overlay with a single elected relay node
//! (the "supernode").
//!
//! The supernode keeps a registry of connected peers, relays every
//! application message from one peer to all the others, and broadcasts a
//! heartbeat on a fixed interval.  Each plain peer runs a client that
//! announces itself, forwards inbound traffic to the application, tracks the
//! last heartbeat it saw, and a watchdog that promotes the node to supernode
//! once the heartbeat has been missing for two full cycles.
//!
//! This crate holds the protocol decisions only, stated over plain values;
//! sockets, threads and clocks live with the caller.

pub mod peer;
pub mod protocol;
pub mod registry;
pub mod relay;
pub mod role;
