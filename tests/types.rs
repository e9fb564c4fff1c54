use rusk_vm::digest::{Digest, HashState, MakeDigest};
use rusk_vm::types::{bytes_eq, Signature, H256};

#[test]
fn zero_hash_is_all_zero() {
    assert_eq!(H256::zero().as_bytes(), &[0u8; 32][..]);
}

#[test]
fn hash_from_bytes_keeps_them() {
    let bytes: Vec<u8> = (0..32).collect();
    let h = H256::from_bytes(&bytes);
    assert_eq!(h.as_bytes(), &bytes[..]);
    assert!(h == H256::from_bytes(&bytes));
    assert!(h != H256::zero());
}

#[test]
fn signature_round_trip() {
    let bytes: Vec<u8> = (0..64).map(|i| (i * 3) as u8).collect();
    let sig = Signature::from_slice(&bytes);
    assert_eq!(&sig.as_array_ref()[..], &bytes[..]);
}

#[test]
fn byte_comparison() {
    assert!(bytes_eq(b"abc", b"abc"));
    assert!(!bytes_eq(b"abc", b"abd"));
    assert!(!bytes_eq(b"abc", b"ab"));
    assert!(bytes_eq(b"", b""));
}

#[test]
fn digest_of_empty_code() {
    let d = Vec::<u8>::new().digest();
    let expected = [
        0x0e, 0x57, 0x51, 0xc0, 0x26, 0xe5, 0x43, 0xb2, 0xe8, 0xab, 0x2e, 0xb0, 0x60, 0x99, 0xda,
        0xa1, 0xd1, 0xe5, 0xdf, 0x47, 0x77, 0x8f, 0x77, 0x87, 0xfa, 0xab, 0x45, 0xcd, 0xf1, 0x2f,
        0xe3, 0xa8,
    ];
    assert_eq!(d.as_bytes(), &expected[..]);
}

#[test]
fn digest_depends_on_input() {
    let a = vec![1u8, 2, 3].digest();
    let b = vec![1u8, 2, 4].digest();
    assert!(a != b);
    assert!(a == vec![1u8, 2, 3].digest());
    let h = H256::zero();
    assert!(h.digest() != h);
}

#[test]
fn incremental_hashing_matches_one_shot() {
    let mut state = HashState::new();
    state.update(b"hello ");
    state.update(b"world");
    assert!(state.fin() == b"hello world".to_vec().digest());
    let mut state = HashState::new();
    let v = vec![4u8, 5];
    v.make_digest(&mut state);
    H256::zero().make_digest(&mut state);
    let mut all = vec![4u8, 5];
    all.extend_from_slice(&[0u8; 32]);
    assert!(state.fin() == all.digest());
}

#[test]
fn number_digest_hashes_little_endian_bytes() {
    let n: u128 = 0x0102_0304;
    assert!(n.digest() == n.to_le_bytes().to_vec().digest());
    assert!(n.digest() != 0u128.digest());
}
