//! The decisions of the proof-of-work service.
use vstd::prelude::*;

use super::pb::{BlockHash, BlockStatus};

verus! {

/// Code of a block that could not be handed to the engine.
pub const SUBMIT_FAILURE: u32 = 500;

/// The status answered to a submitted block: 0 when it was handed to the
/// engine (`sent`), 500 otherwise.
pub fn submit_status(sent: bool) -> (r: BlockStatus)
    ensures
        r.code == (if sent { 0 } else { SUBMIT_FAILURE }),
{
    if sent {
        BlockStatus { code: 0 }
    } else {
        BlockStatus { code: SUBMIT_FAILURE }
    }
}

/// What is broadcast to every subscriber once the engine is done with a
/// block: the sealed block, or, when no nonce was found, the failure
/// message of a "resource exhausted" status.
pub fn broadcast_message(block_hash: Option<BlockHash>) -> (r: Result<BlockHash, &'static str>)
    ensures
        match block_hash {
            Some(b) => r == Ok::<BlockHash, &'static str>(b),
            None => r matches Err(m) && m@ == "Failed to find suitable hash"@,
        },
{
    match block_hash {
        Some(b) => Ok(b),
        None => Err("Failed to find suitable hash"),
    }
}

} // verus!
