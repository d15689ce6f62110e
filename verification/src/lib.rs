//! A clustered in-memory key-value cache: the store, the membership
//! protocol, write propagation and snapshot bookkeeping, as verified logic
//! on plain values.

use vstd::prelude::*;

pub mod address;
pub mod arguments;
pub mod backup;
pub mod cli;
pub mod client;
pub mod config;
pub mod encoding;
pub mod neighbours;
pub mod responses;
pub mod routes;
pub mod store;
pub mod transport;
pub mod value;

verus! {

/// The largest body, in bytes, that a write or an update may carry.
pub const MAX_FILE_SIZE: u64 = 1024 * 1024 * 32;

/// The largest body, in bytes, that a join or a sync may carry.
pub const MAX_REQUEST_SIZE: u64 = 1024 * 32;

/// How many events the propagation channel holds before it drops the
/// oldest.
pub const CHANNEL_SIZE: usize = 16;

/// How many requests a node serves at a time.
pub const MAX_CONCURRENT_REQUESTS: usize = 10000;

/// The milliseconds after which a request is given up.
pub const REQUEST_TIMEOUT: u64 = 15000;

} // verus!
