//! Messages of the proof-of-work service.
use vstd::prelude::*;

verus! {

/// A block to seal: the data that the proof of work is computed over.
#[derive(Clone, Debug, PartialEq, Eq, Default)]
pub struct Block {
    pub data: Vec<u8>,
}

/// A sealed block: the BLAKE3 hash of its data (`id`), the nonce that was
/// found, and the hash of the data followed by that nonce.
#[derive(Clone, Debug, PartialEq, Eq, Default)]
pub struct BlockHash {
    pub id: Vec<u8>,
    pub hash: Vec<u8>,
    pub nonce: u32,
}

/// The answer to a submitted block: 0 when the engine accepted it.
#[derive(Clone, Copy, Debug, PartialEq, Eq, Default)]
pub struct BlockStatus {
    pub code: u32,
}

/// A subscriber of sealed blocks.
#[derive(Clone, Debug, PartialEq, Eq, Default)]
pub struct ClientInfo {
    pub name: String,
}

} // verus!
