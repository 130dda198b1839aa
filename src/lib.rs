//! Content fingerprints for the records of columnar dataset shards.
//!
//! A shard is one Arrow IPC stream. Its first record batch is decoded, the
//! column named `text` is located, and every row of it is hashed with XXH3-64.
pub mod error;
pub mod hasher;
pub mod decoder;
pub mod shard;
