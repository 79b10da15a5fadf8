//! The decisions behind a Ruby binding for shared-memory ring buffers
//! (shmem-ipc): which items a send writes into the ring and in what order,
//! how received items are collected, how a byte sender turns its input into
//! bytes, which descriptors a peer is given, and how failures are worded.
//! The ring calls themselves, and the Ruby glue, stand outside this crate.

pub mod descriptors;
pub mod endpoint;
pub mod payload;
pub mod transfer;
