//! What the proof-of-work client shows of a sealed block.
use vstd::prelude::*;

use super::pb::BlockHash;

verus! {

/// The lowercase hexadecimal digit of `d` (which is below 16).
pub open spec fn hex_digit(d: u8) -> char {
    if d < 10 {
        (d + 48) as char
    } else {
        (d + 87) as char
    }
}

/// `bytes` in lowercase hexadecimal: two digits per byte, the high half
/// first.
pub open spec fn hex_lower(bytes: Seq<u8>) -> Seq<char>
    decreases bytes.len(),
{
    if bytes.len() == 0 {
        seq![]
    } else {
        seq![hex_digit(bytes[0] / 16), hex_digit(bytes[0] % 16)] + hex_lower(bytes.drop_first())
    }
}

/// Calls `hex::encode`: each byte becomes two digits of `0123456789abcdef`,
/// the high half first.
#[verifier::external_body]
fn hex_encode(bytes: &[u8]) -> (r: String)
    ensures
        r@ == hex_lower(bytes@),
{
    hex::encode(bytes)
}

/// The id and the hash of a sealed block, in lowercase hexadecimal, as the
/// client prints them.
pub fn sealed_block_hex(bh: &BlockHash) -> (r: (String, String))
    ensures
        r.0@ == hex_lower(bh.id@),
        r.1@ == hex_lower(bh.hash@),
{
    (hex_encode(bh.id.as_slice()), hex_encode(bh.hash.as_slice()))
}

} // verus!
