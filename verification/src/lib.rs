//! Core of a WebSocket message bridge.
//!
//! Every connection is given a role by the path it asks for when it connects:
//! `/` makes it a receiver, `/sender` makes it a sender, anything else is turned
//! away with `404 Not Found`. What a sender sends is relayed, unchanged, to every
//! connection that is open at that moment, the sender's own included; what a
//! receiver sends is dropped.
//!
//! The crate decides and the caller acts: each event handler returns what is to be
//! logged and to whom a payload is to be sent, and leaves the printing and the
//! socket writes to the program around it.

pub mod config;
pub mod handler;
pub mod handshake;
pub mod laws;
pub mod log;
pub mod payload;
pub mod registry;
pub mod role;
pub mod router;
