//! Point-to-point TCP throughput measurement: the wire protocol, the
//! per-connection protocol state machines and the admission controller,
//! without any I/O of their own.

use vstd::prelude::*;

pub mod client;
pub mod command;
pub mod server;
pub mod transfer;
pub mod util;

pub use client::Client;
pub use server::DEFAULT_MAX_THREADS;

verus! {

/// Size in bytes of one transfer chunk, the granule of a throughput test.
pub const BUFFER_SIZE: usize = 1048576;

} // verus!
