use rust_live::pow::client::sealed_block_hex;
use rust_live::pow::pb::{Block, BlockHash};
use rust_live::pow::server::{broadcast_message, submit_status, SUBMIT_FAILURE};
use rust_live::pow::{be_bytes, pow, seal_block};

fn hex(bytes: &[u8]) -> String {
    bytes.iter().map(|b| format!("{:02x}", b)).collect()
}

fn with_nonce(data: &[u8], n: u32) -> Vec<u8> {
    let mut v = data.to_vec();
    v.extend_from_slice(&n.to_be_bytes());
    v
}

#[test]
fn be_bytes_most_significant_first() {
    assert_eq!(be_bytes(0x0102_0304), vec![1, 2, 3, 4]);
    assert_eq!(be_bytes(0), vec![0, 0, 0, 0]);
    assert_eq!(be_bytes(u32::MAX), vec![255, 255, 255, 255]);
    assert_eq!(be_bytes(256), vec![0, 0, 1, 0]);
}

#[test]
fn block_id_of_empty_data_is_known_hash() {
    let sealed = seal_block(&Block { data: Vec::new() }, Some(0)).unwrap();
    assert_eq!(
        hex(&sealed.id),
        "af1349b9f5f9a1a6a0404dea36dcc9499bcb25c9adc112b7cc9a93cae41f3262"
    );
}

#[test]
fn block_id_is_blake3_of_data() {
    let data = b"hello world".to_vec();
    let sealed = seal_block(&Block { data: data.clone() }, Some(1)).unwrap();
    assert_eq!(sealed.id.len(), 32);
    assert_eq!(sealed.id, blake3::hash(&data).as_bytes().to_vec());
}

#[test]
fn nonce_hash_covers_data_and_nonce() {
    let block = Block { data: b"hello world".to_vec() };
    let h7 = seal_block(&block, Some(7)).unwrap().hash;
    let h8 = seal_block(&block, Some(8)).unwrap().hash;
    assert_eq!(h7, blake3::hash(&with_nonce(&block.data, 7)).as_bytes().to_vec());
    assert_ne!(h7, blake3::hash(&block.data).as_bytes().to_vec());
    assert_ne!(h7, h8);
}

#[test]
fn seal_without_nonce_is_none() {
    let block = Block { data: b"x".to_vec() };
    assert_eq!(seal_block(&block, None), None);
}

#[test]
fn seal_with_nonce_records_it() {
    let block = Block { data: b"x".to_vec() };
    let sealed = seal_block(&block, Some(42)).unwrap();
    assert_eq!(sealed.nonce, 42);
    assert_eq!(sealed.id.len(), 32);
    assert_eq!(sealed.hash.len(), 32);
    assert_eq!(sealed.id, blake3::hash(b"x").as_bytes().to_vec());
    assert_eq!(sealed.hash, blake3::hash(&with_nonce(b"x", 42)).as_bytes().to_vec());
}

#[test]
fn pow_finds_a_hash_with_three_zero_bytes() {
    let block = Block { data: b"hello world".to_vec() };
    let sealed = pow(block.clone()).expect("a nonce exists");
    assert!(sealed.nonce < u32::MAX);
    assert_eq!(sealed.id.len(), 32);
    assert_eq!(sealed.hash.len(), 32);
    assert_eq!(&sealed.hash[..3], &[0, 0, 0]);
    assert_eq!(sealed.hash, blake3::hash(&with_nonce(&block.data, sealed.nonce)).as_bytes().to_vec());
    assert_eq!(sealed.id, blake3::hash(&block.data).as_bytes().to_vec());
}

#[test]
fn submit_status_codes() {
    assert_eq!(submit_status(true).code, 0);
    assert_eq!(submit_status(false).code, SUBMIT_FAILURE);
    assert_eq!(submit_status(false).code, 500);
}

#[test]
fn broadcast_passes_sealed_block_or_failure() {
    let bh = BlockHash { id: vec![1], hash: vec![0, 0, 0, 4], nonce: 3 };
    assert_eq!(broadcast_message(Some(bh.clone())), Ok(bh));
    assert_eq!(broadcast_message(None), Err("Failed to find suitable hash"));
}

#[test]
fn sealed_block_shows_lowercase_hex() {
    let bh = BlockHash { id: vec![0x00, 0xab, 0xff], hash: vec![0x12, 0x9c], nonce: 5 };
    let (id, hash) = sealed_block_hex(&bh);
    assert_eq!(id, "00abff");
    assert_eq!(hash, "129c");
    let empty = BlockHash { id: Vec::new(), hash: Vec::new(), nonce: 0 };
    assert_eq!(sealed_block_hex(&empty), (String::new(), String::new()));
}
