//! The proof-of-work engine: find a nonce such that the BLAKE3 hash of a
//! block's data followed by the nonce (four bytes, big-endian) starts with
//! three zero bytes.
pub mod client;
pub mod pb;
pub mod server;

use rayon::prelude::{IntoParallelIterator, ParallelIterator};
use vstd::prelude::*;

use pb::{Block, BlockHash};

verus! {

// ---------------------------------------------------------------------
// BLAKE3
// ---------------------------------------------------------------------

/// The incremental BLAKE3 hasher.
#[verifier::external_type_specification]
#[verifier::external_body]
pub struct ExHasher(blake3::Hasher);

/// The BLAKE3 hash (32 bytes) of `input`, as `blake3::hash` computes it.
pub uninterp spec fn blake3_digest(input: Seq<u8>) -> Seq<u8>;

/// The bytes that hasher `h` has absorbed since it was created.
pub uninterp spec fn hasher_input(h: blake3::Hasher) -> Seq<u8>;

/// Hasher `h` is a regular (unkeyed) hasher made by `blake3::Hasher::new`
/// that was never given an input offset (which only the crate's `hazmat`
/// interface can set, and on which `update` and `finalize` may panic).
pub uninterp spec fn hasher_without_offset(h: blake3::Hasher) -> bool;

/// Calls `blake3::Hasher::new`: a hasher that has absorbed nothing.
#[verifier::external_body]
fn hasher_new() -> (h: blake3::Hasher)
    ensures
        hasher_input(h) == Seq::<u8>::empty(),
        hasher_without_offset(h),
{
    blake3::Hasher::new()
}

/// Calls `blake3::Hasher::update`: the hasher absorbs `input` after what
/// it held.
#[verifier::external_body]
fn hasher_update(h: &mut blake3::Hasher, input: &[u8])
    requires
        hasher_without_offset(*old(h)),
    ensures
        hasher_input(*final(h)) == hasher_input(*old(h)) + input@,
        hasher_without_offset(*final(h)),
{
    h.update(input);
}

/// Calls `Clone::clone` on a hasher: the copy holds the same input.
#[verifier::external_body]
fn hasher_clone(h: &blake3::Hasher) -> (r: blake3::Hasher)
    ensures
        hasher_input(r) == hasher_input(*h),
        hasher_without_offset(r) == hasher_without_offset(*h),
{
    h.clone()
}

/// Calls `blake3::Hasher::finalize`, then `Hash::as_bytes`: the hash of all
/// input absorbed, which the crate documents to equal `blake3::hash` of it.
#[verifier::external_body]
fn hasher_finalize(h: &blake3::Hasher) -> (r: Vec<u8>)
    requires
        hasher_without_offset(*h),
    ensures
        r@ == blake3_digest(hasher_input(*h)),
        r@.len() == 32,
{
    h.finalize().as_bytes().to_vec()
}

/// Calls `blake3::hash`, then `Hash::as_bytes`: the 32-byte hash of `input`.
#[verifier::external_body]
fn blake3_hash_bytes(input: &[u8]) -> (r: Vec<u8>)
    ensures
        r@ == blake3_digest(input@),
        r@.len() == 32,
{
    blake3::hash(input).as_bytes().to_vec()
}

// ---------------------------------------------------------------------
// The target
// ---------------------------------------------------------------------

/// Number of zero bytes a sealed block's hash starts with.
pub const PREFIX_ZERO_LEN: usize = 3;

/// `hash` starts with three zero bytes.
pub open spec fn has_zero_prefix(hash: Seq<u8>) -> bool {
    hash.len() >= PREFIX_ZERO_LEN && hash.subrange(0, PREFIX_ZERO_LEN as int) == seq![0u8, 0u8, 0u8]
}

/// The four bytes of `n`, most significant first.
pub open spec fn spec_be_bytes(n: u32) -> Seq<u8> {
    seq![
        (n / 0x100_0000) as u8,
        ((n / 0x1_0000) % 0x100) as u8,
        ((n / 0x100) % 0x100) as u8,
        (n % 0x100) as u8,
    ]
}

/// The number that four bytes denote when read most significant first.
pub open spec fn be_value(b: Seq<u8>) -> int {
    b[0] * 0x100_0000 + b[1] * 0x1_0000 + b[2] * 0x100 + b[3]
}

/// The byte form of a nonce is its big-endian encoding: four bytes that,
/// read most significant first, give the nonce back.
pub proof fn law_be_bytes_reads_back(n: u32)
    ensures
        spec_be_bytes(n).len() == 4,
        be_value(spec_be_bytes(n)) == n,
{
    let b = spec_be_bytes(n);
    let x = n as int;
    let b0 = x / 0x100_0000;
    let b1 = (x / 0x1_0000) % 0x100;
    let b2 = (x / 0x100) % 0x100;
    let b3 = x % 0x100;
    assert(0 <= b0 < 0x100 && 0 <= b1 < 0x100 && 0 <= b2 < 0x100 && 0 <= b3 < 0x100) by (nonlinear_arith)
        requires 0 <= x < 0x1_0000_0000, b0 == x / 0x100_0000, b1 == (x / 0x1_0000) % 0x100,
            b2 == (x / 0x100) % 0x100, b3 == x % 0x100;
    assert(b[0] == b0 && b[1] == b1 && b[2] == b2 && b[3] == b3);
    assert(b0 * 0x100_0000 + b1 * 0x1_0000 + b2 * 0x100 + b3 == x) by (nonlinear_arith)
        requires 0 <= x, b0 == x / 0x100_0000, b1 == (x / 0x1_0000) % 0x100,
            b2 == (x / 0x100) % 0x100, b3 == x % 0x100;
}

/// Distinct nonces have distinct byte forms, so every nonce of the search
/// is hashed with bytes of its own.
pub proof fn law_be_bytes_injective(a: u32, b: u32)
    ensures
        spec_be_bytes(a) == spec_be_bytes(b) ==> a == b,
{
    law_be_bytes_reads_back(a);
    law_be_bytes_reads_back(b);
}

/// Four bytes that read back as `n`, most significant first, are the byte
/// form of `n`.
proof fn lemma_be_value_determines_bytes(n: u32, b: Seq<u8>)
    requires
        b.len() == 4,
        be_value(b) == n,
    ensures
        b == spec_be_bytes(n),
{
    let x = n as int;
    let b0 = b[0] as int;
    let b1 = b[1] as int;
    let b2 = b[2] as int;
    let b3 = b[3] as int;
    assert(b0 == x / 0x100_0000 && b1 == (x / 0x1_0000) % 0x100 && b2 == (x / 0x100) % 0x100 && b3
        == x % 0x100) by (nonlinear_arith)
        requires
            0 <= b0 < 0x100,
            0 <= b1 < 0x100,
            0 <= b2 < 0x100,
            0 <= b3 < 0x100,
            x == b0 * 0x100_0000 + b1 * 0x1_0000 + b2 * 0x100 + b3,
    ;
    assert(b =~= spec_be_bytes(n));
}

/// The hash a nonce gives is the BLAKE3 hash of the block's data followed
/// by the nonce's four big-endian bytes: for any four bytes `b` that read
/// back as `n` (most significant first), it is the hash of `data + b`.
pub proof fn law_nonce_hash_of_big_endian_bytes(data: Seq<u8>, n: u32, b: Seq<u8>)
    requires
        b.len() == 4,
        be_value(b) == n,
    ensures
        nonce_hash(data, n) == blake3_digest(data + b),
{
    lemma_be_value_determines_bytes(n, b);
}

/// The hash that nonce `n` gives for a block holding `data`.
pub open spec fn nonce_hash(data: Seq<u8>, n: u32) -> Seq<u8> {
    blake3_digest(data + spec_be_bytes(n))
}

/// `n` is a nonce the engine may return for `data`: it lies in the searched
/// range `0..u32::MAX` and its hash starts with three zero bytes.
pub open spec fn valid_nonce(data: Seq<u8>, n: u32) -> bool {
    n < u32::MAX && has_zero_prefix(nonce_hash(data, n))
}

/// Calls rayon's `find_any` on the nonces `0..u32::MAX` with
/// [`nonce_meets_target`] as the predicate.  Which matching nonce comes back
/// depends on the scheduling of the threads; what holds of every outcome is
/// that a returned nonce matches, and that nothing comes back only when no
/// nonce of the range matches, each of their hashes being a 32-byte
/// BLAKE3 output (`blake3::OUT_LEN`).
#[verifier::external_body]
fn find_any_nonce(hasher: &blake3::Hasher) -> (r: Option<u32>)
    requires
        hasher_without_offset(*hasher),
    ensures
        r matches Some(n) ==> n < u32::MAX && has_zero_prefix(
            blake3_digest(hasher_input(*hasher) + spec_be_bytes(n)),
        ),
        r is None ==> forall|n: u32|
            n < u32::MAX ==> {
                &&& (#[trigger] blake3_digest(hasher_input(*hasher) + spec_be_bytes(n))).len()
                    == 32
                &&& !has_zero_prefix(blake3_digest(hasher_input(*hasher) + spec_be_bytes(n)))
            },
{
    (0..u32::MAX).into_par_iter().find_any(|n| nonce_meets_target(hasher, *n))
}

// ---------------------------------------------------------------------
// The engine
// ---------------------------------------------------------------------

/// The four bytes of `n`, most significant first (`u32::to_be_bytes`).
pub fn be_bytes(n: u32) -> (r: Vec<u8>)
    ensures
        r@ == spec_be_bytes(n),
        r@.len() == 4,
        be_value(r@) == n,
{
    proof {
        law_be_bytes_reads_back(n);
    }
    let mut r: Vec<u8> = Vec::new();
    r.push((n / 0x100_0000) as u8);
    r.push(((n / 0x1_0000) % 0x100) as u8);
    r.push(((n / 0x100) % 0x100) as u8);
    r.push((n % 0x100) as u8);
    assert(r@ =~= spec_be_bytes(n));
    r
}

/// The id of a block: the BLAKE3 hash of its data.
fn get_block_id(block: &Block) -> (r: Vec<u8>)
    ensures
        r@ == blake3_digest(block.data@),
        r@.len() == 32,
{
    blake3_hash_bytes(block.data.as_slice())
}

/// A hasher that has absorbed `data`.
fn blake3_hash_base(data: &[u8]) -> (h: blake3::Hasher)
    ensures
        hasher_input(h) == data@,
        hasher_without_offset(h),
{
    let mut hash = hasher_new();
    hasher_update(&mut hash, data);
    assert(Seq::<u8>::empty() + data@ =~= data@);
    hash
}

/// The hash of what `hasher` absorbed followed by `nonce` (big-endian).
fn blake3_hash(hasher: blake3::Hasher, nonce: u32) -> (r: Vec<u8>)
    requires
        hasher_without_offset(hasher),
    ensures
        r@ == blake3_digest(hasher_input(hasher) + spec_be_bytes(nonce)),
        r@.len() == 32,
{
    let mut hasher = hasher;
    let bytes = be_bytes(nonce);
    hasher_update(&mut hasher, bytes.as_slice());
    hasher_finalize(&hasher)
}

/// Whether `nonce` makes the hash of what `hasher` absorbed, followed by
/// the nonce, start with three zero bytes.
fn nonce_meets_target(hasher: &blake3::Hasher, nonce: u32) -> (r: bool)
    requires
        hasher_without_offset(*hasher),
    ensures
        r == has_zero_prefix(blake3_digest(hasher_input(*hasher) + spec_be_bytes(nonce))),
{
    let hash = blake3_hash(hasher_clone(hasher), nonce);
    let r = hash[0] == 0 && hash[1] == 0 && hash[2] == 0;
    assert(r == (hash@.subrange(0, 3) =~= seq![0u8, 0u8, 0u8]));
    r
}

/// Seals `block` with the outcome `found` of the nonce search: nothing
/// when no nonce was found, else the block's id, the nonce, and the hash
/// that the nonce gives.
pub fn seal_block(block: &Block, found: Option<u32>) -> (r: Option<BlockHash>)
    ensures
        match found {
            None => r is None,
            Some(n) => r matches Some(bh) && {
                &&& bh.nonce == n
                &&& bh.id@ == blake3_digest(block.data@)
                &&& bh.hash@ == nonce_hash(block.data@, n)
                &&& bh.id@.len() == 32
                &&& bh.hash@.len() == 32
            },
        },
{
    match found {
        Some(n) => {
            let hasher = blake3_hash_base(block.data.as_slice());
            Some(BlockHash { id: get_block_id(block), hash: blake3_hash(hasher, n), nonce: n })
        },
        None => None,
    }
}

/// The proof of work for `block`: some nonce below `u32::MAX` whose hash
/// (of the data followed by the nonce) starts with three zero bytes,
/// together with the block's id and that hash; nothing when no nonce of
/// the range qualifies.  The search runs in parallel, so when several
/// nonces qualify any one of them may be returned.
pub fn pow(block: Block) -> (r: Option<BlockHash>)
    ensures
        r is None <==> forall|n: u32| !#[trigger] valid_nonce(block.data@, n),
        r is None ==> forall|n: u32|
            n < u32::MAX ==> {
                &&& (#[trigger] nonce_hash(block.data@, n)).len() == 32
                &&& nonce_hash(block.data@, n).subrange(0, 3) != seq![0u8, 0u8, 0u8]
            },
        r matches Some(bh) ==> {
            &&& valid_nonce(block.data@, bh.nonce)
            &&& bh.id@ == blake3_digest(block.data@)
            &&& bh.hash@ == nonce_hash(block.data@, bh.nonce)
            &&& bh.id@.len() == 32
            &&& bh.hash@.len() == 32
        },
{
    let hasher = blake3_hash_base(block.data.as_slice());
    let nonce = find_any_nonce(&hasher);
    proof {
        if nonce is None {
            assert forall|n: u32| !#[trigger] valid_nonce(block.data@, n) by {
                if n < u32::MAX {
                    assert(!has_zero_prefix(blake3_digest(hasher_input(hasher) + spec_be_bytes(n))));
                }
            }
            assert forall|n: u32| n < u32::MAX implies {
                &&& (#[trigger] nonce_hash(block.data@, n)).len() == 32
                &&& nonce_hash(block.data@, n).subrange(0, 3) != seq![0u8, 0u8, 0u8]
            } by {
                let h = blake3_digest(hasher_input(hasher) + spec_be_bytes(n));
                assert(h.len() == 32 && !has_zero_prefix(h));
                assert(h == nonce_hash(block.data@, n));
            }
        }
        if let Some(n) = nonce {
            assert(valid_nonce(block.data@, n));
        }
    }
    seal_block(&block, nonce)
}

} // verus!
