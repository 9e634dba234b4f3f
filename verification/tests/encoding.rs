//! Tests for the public-input encoder, the proof adapter and the registry.

use voting_program::NullifierAccount;
use voting_program::NullifierRegistry;
use voting_program::VerifyingKey;
use voting_program::VotingError;
use voting_program::bytes32_eq;
use voting_program::decode_public_inputs;
use voting_program::encode_public_inputs;
use voting_program::verify_groth16_proof;

fn test_key() -> VerifyingKey {
    VerifyingKey {
        alpha: [0u8; 64],
        beta: [0u8; 128],
        gamma: [0u8; 128],
        delta: [0u8; 128],
        ic: vec![[0u8; 64]; 6],
    }
}

#[test]
fn encoding_layout_is_exact() {
    let root = [0xAAu8; 32];
    let nul = [0xBBu8; 32];
    let inputs = encode_public_inputs(&root, &nul, 0x0102030405060708, 3, 4);

    assert_eq!(inputs[0], root);
    assert_eq!(inputs[1], nul);

    let mut expect_id = [0u8; 32];
    expect_id[24..].copy_from_slice(&[1, 2, 3, 4, 5, 6, 7, 8]);
    assert_eq!(inputs[2], expect_id);

    let mut expect_vote = [0u8; 32];
    expect_vote[31] = 3;
    assert_eq!(inputs[3], expect_vote);

    let mut expect_n = [0u8; 32];
    expect_n[31] = 4;
    assert_eq!(inputs[4], expect_n);
}

#[test]
fn encoding_round_trips() {
    let root = [0x5Cu8; 32];
    let nul = [0xD3u8; 32];
    let inputs = encode_public_inputs(&root, &nul, u64::MAX, 7, 8);
    let (r, n, id, vote, num) = decode_public_inputs(&inputs).unwrap();
    assert_eq!(r, root);
    assert_eq!(n, nul);
    assert_eq!(id, u64::MAX);
    assert_eq!(vote, 7);
    assert_eq!(num, 8);
}

#[test]
fn decoding_rejects_nonzero_padding() {
    let inputs = encode_public_inputs(&[0u8; 32], &[0u8; 32], 5, 1, 2);
    let mut bad_id = inputs;
    bad_id[2][0] = 1;
    assert!(decode_public_inputs(&bad_id).is_none());

    let mut bad_vote = inputs;
    bad_vote[3][30] = 1;
    assert!(decode_public_inputs(&bad_vote).is_none());

    let mut bad_num = inputs;
    bad_num[4][0] = 0xFF;
    assert!(decode_public_inputs(&bad_num).is_none());
}

#[test]
fn short_proof_blob_is_invalid() {
    let r = verify_groth16_proof(&[0u8; 255], &[0u8; 32], &[0u8; 32], 1, 0, 2, &test_key());
    assert_eq!(r, Err(VotingError::InvalidProof));
}

#[test]
fn garbage_proof_fails_the_pairing_check() {
    let r = verify_groth16_proof(&[0x11u8; 256], &[0u8; 32], &[0u8; 32], 1, 0, 2, &test_key());
    assert_eq!(r, Err(VotingError::InvalidProof));
}

#[test]
fn wrong_commitment_count_rejects_every_proof() {
    let mut key = test_key();
    key.ic = vec![[0u8; 64]; 5];
    let r = verify_groth16_proof(&[0u8; 256], &[0u8; 32], &[0u8; 32], 1, 0, 2, &key);
    assert_eq!(r, Err(VotingError::InvalidProof));
}

#[test]
fn registry_records_each_pair_once() {
    let mut registry = NullifierRegistry::new();
    let a = [1u8; 32];
    let b = [2u8; 32];
    assert!(!registry.contains(1, &a));
    assert_eq!(registry.register(1, a), Ok(()));
    assert!(registry.contains(1, &a));
    assert_eq!(registry.register(1, a), Err(VotingError::AlreadyUsed));
    assert_eq!(registry.register(2, a), Ok(()));
    assert_eq!(registry.register(1, b), Ok(()));
    assert!(registry.contains(2, &a));
    assert!(registry.contains(1, &b));
    assert!(!registry.contains(2, &b));
}

#[test]
fn byte_comparison_is_exact() {
    let a = [3u8; 32];
    let mut b = [3u8; 32];
    assert!(bytes32_eq(&a, &b));
    b[17] = 4;
    assert!(!bytes32_eq(&a, &b));
}

#[test]
fn nullifier_account_carries_its_key() {
    let record = NullifierAccount { nullifier: [8u8; 32], proposal: 42 };
    assert_eq!(record.proposal, 42);
    assert_eq!(record.nullifier[0], 8);
}
