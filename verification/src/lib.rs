//! A minimalistic in-memory key-value store.
//!
//! The library holds the verified core of the server: the command grammar and
//! its parser, the execution semantics against the shared store, and the
//! serialization of results onto the wire. The surrounding process — sockets,
//! worker threads, command-line handling — lives outside and only hands the
//! core plain values.

use vstd::prelude::*;

pub mod command;
pub mod config;
pub mod executor;
pub mod laws;
pub mod pool;
pub mod server;
pub mod store;
pub mod wire;

pub use wire::serialize;

verus! {

/// The field separator of the wire protocol: the ASCII unit-separator
/// control character. Keys and values must not contain it; the protocol
/// offers no escaping.
pub const SEP: char = '\u{1f}';

} // verus!
