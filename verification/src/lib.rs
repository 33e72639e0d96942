//! An in-memory, network-accessible key-value cache.
//!
//! Clients speak a length-prefixed text protocol (PING, ECHO, GET, SET, DEL,
//! CLR) against a single shared string-to-string map. This crate holds the
//! verified core: the wire framing, the command grammar and response text,
//! the store backed by dashmap's concurrent map, and the per-request step
//! that a connection task runs. Listening, accepting and socket I/O live
//! outside the crate.

pub mod errors;
pub mod frame;
pub mod handler;
pub mod laws;
pub mod protocol;
pub mod store;
