//! Failure kinds of the router and the ledger.

use vstd::prelude::*;

verus! {

/// Why an operation failed; each cause is its own kind.
#[derive(Debug, Clone, Copy, PartialEq, Eq, Structural)]
pub enum ShardError {
    /// No shard is registered for the region.
    UnknownRegion,
    /// The shard's connection could not be opened, or was lost.
    ShardUnavailable,
    /// Stored blocks do not form an intact chain.
    ChainIntegrityViolation,
    /// The chain tail moved between reading it and writing after it; the
    /// whole append may be redone.
    ConcurrentAppendConflict,
    /// Dumping or restoring a shard failed.
    BackupFailed,
    /// The operation ran out of time.
    Timeout,
}

impl ShardError {
    /// Whether redoing the failed call from a fresh start is safe.
    pub fn is_retryable(&self) -> (r: bool)
        ensures
            r == (*self == ShardError::ConcurrentAppendConflict),
    {
        match self {
            ShardError::ConcurrentAppendConflict => true,
            _ => false,
        }
    }
}

} // verus!
