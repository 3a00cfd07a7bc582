//! Pacing rule of the onchain wallet synchronization loop.
//!
//! Synchronization advances block by block from the wallet's last
//! checkpoint and finishes with the mempool overlay; the block fetching
//! and the durable commits are I/O and live outside the library.  The rule
//! deciding when to commit mid-sync lives here: every fixed number of
//! blocks, bounding the work a crash can lose.

use vstd::prelude::*;

verus! {

/// During a block-by-block sync, durable wallet state is committed once
/// every this many blocks.
pub const CHECKPOINT_COMMIT_INTERVAL: u32 = 10_000;

/// Whether the sync loop owes a durable commit after applying the block at
/// `height`: exactly at every checkpoint-interval boundary.
pub fn commit_due(height: u32) -> (r: bool)
    ensures
        r == (height % CHECKPOINT_COMMIT_INTERVAL == 0),
{
    height % CHECKPOINT_COMMIT_INTERVAL == 0
}

} // verus!
