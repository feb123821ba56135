//! Multi-region sharded router with a hash-chained message ledger.
//!
//! Each region owns one database shard. [`router::GlobalDB`] maps regions to
//! their shard handles and decides where every region-scoped operation goes;
//! [`blockchain::BlockchainDBManager`] keeps one shard's append-only chain of
//! message blocks together with its transaction log. Talking to the database
//! itself is left to the caller: the library decides, the caller executes.

pub mod area;
pub mod text;
pub mod config;
pub mod blockchain;
pub mod error;
pub mod shard;
pub mod records;
pub mod router;
pub mod merge;
