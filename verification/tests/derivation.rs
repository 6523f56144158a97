use bingo::board::derive_board;
use sha3::Digest;
use bingo::bytes::{bytes_eq, clone_bytes, push_u32_be, push_u64_be};
use bingo::draw::derive_draw;

#[test]
fn u32_big_endian_encoding() {
    let mut out: Vec<u8> = Vec::new();
    push_u32_be(&mut out, 0x0102_0304);
    assert_eq!(out, vec![1, 2, 3, 4]);
    push_u32_be(&mut out, 7);
    assert_eq!(out, vec![1, 2, 3, 4, 0, 0, 0, 7]);
}

#[test]
fn u64_big_endian_encoding() {
    let mut out: Vec<u8> = Vec::new();
    push_u64_be(&mut out, 0x0102_0304_0506_0708);
    assert_eq!(out, vec![1, 2, 3, 4, 5, 6, 7, 8]);
}

#[test]
fn byte_equality() {
    let a = vec![1u8, 2, 3];
    let b = vec![1u8, 2, 3];
    let c = vec![1u8, 2, 4];
    let d = vec![1u8, 2];
    assert!(bytes_eq(&a, &b));
    assert!(!bytes_eq(&a, &c));
    assert!(!bytes_eq(&a, &d));
    let e = clone_bytes(&a);
    assert_eq!(a, e);
}

#[test]
fn board_has_24_cells() {
    let caller = b"addr1".to_vec();
    let cells = derive_board(&caller, 1, 7);
    assert_eq!(cells.len(), 24);
}

#[test]
fn board_derivation_is_deterministic() {
    let caller = b"addr1".to_vec();
    let first = derive_board(&caller, 1, 7);
    let second = derive_board(&caller, 1, 7);
    assert_eq!(first, second);
}

#[test]
fn board_depends_on_every_input() {
    let caller = b"addr1".to_vec();
    let other = b"addr2".to_vec();
    let base = derive_board(&caller, 1, 7);
    assert_ne!(base, derive_board(&other, 1, 7));
    assert_ne!(base, derive_board(&caller, 2, 7));
    assert_ne!(base, derive_board(&caller, 1, 8));
}

#[test]
fn board_is_hashed_not_copied() {
    // Two inputs that agree on their first 24 bytes: if the digest were the
    // input handed back, the boards would coincide.
    let caller = vec![b'a'; 30];
    let one = derive_board(&caller, 1, 7);
    let two = derive_board(&caller, 2, 7);
    assert_ne!(one, two);
}

#[test]
fn board_matches_keccak_of_input() {
    let caller = b"addr1".to_vec();
    let round_id: u32 = 3;
    let marker: u64 = 99;
    let mut input = caller.clone();
    input.extend_from_slice(&round_id.to_be_bytes());
    input.extend_from_slice(&marker.to_be_bytes());
    let digest = sha3::Keccak256::digest(&input);
    let cells = derive_board(&caller, round_id, marker);
    assert_eq!(&cells[..], &digest[..24]);
}

#[test]
fn draw_derivation_is_deterministic() {
    assert_eq!(derive_draw(11, 1200), derive_draw(11, 1200));
}

#[test]
fn draw_matches_keccak_of_input() {
    let height: u64 = 11;
    let time: u64 = 1200;
    let mut input = height.to_be_bytes().to_vec();
    input.extend_from_slice(&time.to_be_bytes());
    let digest = sha3::Keccak256::digest(&input);
    assert_eq!(derive_draw(height, time), digest[0]);
}
