//! Verified core of a peer-to-peer networking substrate.
//!
//! The crate models the logic of a node-to-node networking component:
//! length-delimited framing, a deterministic binary wire codec, the
//! application handshake and its acceptance rules, connection
//! classification, a channel multiplexer with a one-frame-per-channel
//! discipline, demand backpressure, and the reader/writer task logic.
//! Asynchronous I/O around this core lives outside the library.

pub mod connection;
pub mod context;
pub mod digest;
pub mod error;
pub mod framing;
pub mod handshake;
pub mod limiter;
pub mod mux;
pub mod reader;
pub mod server;
pub mod types;
pub mod wire;
pub mod writer;

use vstd::prelude::*;

verus! {

/// Greatest frame length accepted for handshake and control frames.
pub const MAX_HANDSHAKE_FRAME_LEN: usize = 4096;

} // verus!
