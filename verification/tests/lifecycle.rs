//! End-to-end scenarios for the proposal lifecycle state machine.

use voting_program::NullifierRegistry;
use voting_program::Proposal;
use voting_program::VerifierConfig;
use voting_program::VerifyingKey;
use voting_program::VoteOutcome;
use voting_program::VotingError;
use voting_program::cast_vote;
use voting_program::create_proposal;
use voting_program::finalize_proposal;

fn nullifier(tag: u8) -> [u8; 32] {
    let mut n = [0u8; 32];
    n[31] = tag;
    n
}

fn test_key() -> VerifyingKey {
    VerifyingKey {
        alpha: [0u8; 64],
        beta: [0u8; 128],
        gamma: [0u8; 128],
        delta: [0u8; 128],
        ic: vec![[0u8; 64]; 6],
    }
}

const AUTHORITY: [u8; 32] = [9u8; 32];

fn open_proposal(num_options: u8, labels: Vec<String>, deadline: i64) -> Proposal {
    create_proposal(
        1,
        [7u8; 32],
        AUTHORITY,
        "Board vote".to_string(),
        "Pick an option".to_string(),
        deadline,
        num_options,
        labels,
    )
    .unwrap()
}

#[test]
fn majority_winner_and_replay_rejected() {
    let labels = vec!["Yes".to_string(), "No".to_string()];
    let mut proposal = open_proposal(2, labels, 100);
    let mut registry = NullifierRegistry::new();
    let config = VerifierConfig::bypassed(test_key());
    let now = 0i64;

    assert_eq!(cast_vote(&mut proposal, &mut registry, &config, now, nullifier(1), 0, &[]), Ok(()));
    assert_eq!(cast_vote(&mut proposal, &mut registry, &config, now, nullifier(2), 0, &[]), Ok(()));
    assert_eq!(cast_vote(&mut proposal, &mut registry, &config, now, nullifier(3), 0, &[]), Ok(()));
    assert_eq!(cast_vote(&mut proposal, &mut registry, &config, now, nullifier(4), 1, &[]), Ok(()));
    assert_eq!(proposal.vote_counts[0], 3);
    assert_eq!(proposal.vote_counts[1], 1);

    let replay = cast_vote(&mut proposal, &mut registry, &config, now, nullifier(1), 1, &[]);
    assert_eq!(replay, Err(VotingError::AlreadyUsed));
    assert_eq!(proposal.vote_counts[0], 3);
    assert_eq!(proposal.vote_counts[1], 1);

    let outcome = finalize_proposal(&mut proposal, AUTHORITY, 100).unwrap();
    assert_eq!(outcome, VoteOutcome::Winner(0, 3));
    assert!(proposal.is_finalized);
}

#[test]
fn even_split_is_a_tie() {
    let labels = vec!["A".to_string(), "B".to_string()];
    let mut proposal = open_proposal(2, labels, 100);
    let mut registry = NullifierRegistry::new();
    let config = VerifierConfig::bypassed(test_key());

    assert_eq!(cast_vote(&mut proposal, &mut registry, &config, 0, nullifier(1), 0, &[]), Ok(()));
    assert_eq!(cast_vote(&mut proposal, &mut registry, &config, 0, nullifier(2), 0, &[]), Ok(()));
    assert_eq!(cast_vote(&mut proposal, &mut registry, &config, 0, nullifier(3), 1, &[]), Ok(()));
    assert_eq!(cast_vote(&mut proposal, &mut registry, &config, 0, nullifier(4), 1, &[]), Ok(()));

    let outcome = finalize_proposal(&mut proposal, AUTHORITY, 200).unwrap();
    assert_eq!(outcome, VoteOutcome::Tie);
}

#[test]
fn zero_votes_reports_no_votes_not_tie() {
    let labels = vec!["A".to_string(), "B".to_string()];
    let mut proposal = open_proposal(2, labels, 100);
    let outcome = finalize_proposal(&mut proposal, AUTHORITY, 100).unwrap();
    assert_eq!(outcome, VoteOutcome::NoVotes);
}

#[test]
fn option_count_bounds_are_enforced() {
    let too_few = create_proposal(
        1,
        [7u8; 32],
        AUTHORITY,
        String::new(),
        String::new(),
        100,
        1,
        vec![String::new()],
    );
    assert_eq!(too_few.unwrap_err(), VotingError::TooFewOptions);

    let too_many = create_proposal(
        1,
        [7u8; 32],
        AUTHORITY,
        String::new(),
        String::new(),
        100,
        9,
        vec![String::new(); 9],
    );
    assert_eq!(too_many.unwrap_err(), VotingError::TooManyOptions);

    let mismatch = create_proposal(
        1,
        [7u8; 32],
        AUTHORITY,
        String::new(),
        String::new(),
        100,
        3,
        vec![String::new(); 2],
    );
    assert_eq!(mismatch.unwrap_err(), VotingError::OptionLabelsMismatch);
}

#[test]
fn vote_value_must_be_in_range() {
    let labels = vec!["A".to_string(), "B".to_string()];
    let mut proposal = open_proposal(2, labels, 100);
    let mut registry = NullifierRegistry::new();
    let config = VerifierConfig::bypassed(test_key());
    let r = cast_vote(&mut proposal, &mut registry, &config, 0, nullifier(1), 2, &[]);
    assert_eq!(r, Err(VotingError::InvalidVote));
    assert_eq!(proposal.vote_counts, [0u64; 8]);
}

#[test]
fn voting_closes_at_the_deadline() {
    let labels = vec!["A".to_string(), "B".to_string()];
    let mut proposal = open_proposal(2, labels, 100);
    let mut registry = NullifierRegistry::new();
    let config = VerifierConfig::bypassed(test_key());
    let at_deadline = cast_vote(&mut proposal, &mut registry, &config, 100, nullifier(1), 0, &[]);
    assert_eq!(at_deadline, Err(VotingError::VotingEnded));
    let past_deadline = cast_vote(&mut proposal, &mut registry, &config, 5000, nullifier(1), 0, &[]);
    assert_eq!(past_deadline, Err(VotingError::VotingEnded));
    let just_before = cast_vote(&mut proposal, &mut registry, &config, 99, nullifier(1), 0, &[]);
    assert_eq!(just_before, Ok(()));
}

#[test]
fn finalize_waits_for_the_deadline() {
    let labels = vec!["A".to_string(), "B".to_string()];
    let mut proposal = open_proposal(2, labels, 100);
    let early = finalize_proposal(&mut proposal, AUTHORITY, 99);
    assert_eq!(early.unwrap_err(), VotingError::VotingNotEnded);
    assert!(!proposal.is_finalized);
    let on_time = finalize_proposal(&mut proposal, AUTHORITY, 100);
    assert!(on_time.is_ok());
}

#[test]
fn finalization_is_terminal() {
    let labels = vec!["A".to_string(), "B".to_string()];
    let mut proposal = open_proposal(2, labels, 100);
    let mut registry = NullifierRegistry::new();
    let config = VerifierConfig::bypassed(test_key());
    finalize_proposal(&mut proposal, AUTHORITY, 150).unwrap();

    let again = finalize_proposal(&mut proposal, AUTHORITY, 200);
    assert_eq!(again.unwrap_err(), VotingError::ProposalFinalized);

    let late_vote = cast_vote(&mut proposal, &mut registry, &config, 200, nullifier(1), 0, &[]);
    assert_eq!(late_vote, Err(VotingError::ProposalFinalized));
    assert_eq!(proposal.vote_counts, [0u64; 8]);
}

#[test]
fn oversized_proof_is_rejected_before_anything_else() {
    let labels = vec!["A".to_string(), "B".to_string()];
    let mut proposal = open_proposal(2, labels, 100);
    let mut registry = NullifierRegistry::new();
    let config = VerifierConfig::bypassed(test_key());
    let huge = vec![0u8; 513];
    let r = cast_vote(&mut proposal, &mut registry, &config, 0, nullifier(1), 0, &huge);
    assert_eq!(r, Err(VotingError::ProofTooLarge));
    assert_eq!(proposal.vote_counts, [0u64; 8]);
}

#[test]
fn enforcing_mode_rejects_a_garbage_proof() {
    let labels = vec!["A".to_string(), "B".to_string()];
    let mut proposal = open_proposal(2, labels, 100);
    let mut registry = NullifierRegistry::new();
    let config = VerifierConfig::enforcing(test_key());
    let garbage = [0x11u8; 256];
    let r = cast_vote(&mut proposal, &mut registry, &config, 0, nullifier(1), 0, &garbage);
    assert_eq!(r, Err(VotingError::InvalidProof));
    assert_eq!(proposal.vote_counts, [0u64; 8]);

    let short = [0x11u8; 64];
    let r2 = cast_vote(&mut proposal, &mut registry, &config, 0, nullifier(1), 0, &short);
    assert_eq!(r2, Err(VotingError::InvalidProof));

    let bypass = VerifierConfig::bypassed(test_key());
    let r3 = cast_vote(&mut proposal, &mut registry, &bypass, 0, nullifier(1), 0, &garbage);
    assert_eq!(r3, Ok(()));
    assert_eq!(proposal.vote_counts[0], 1);
}

#[test]
fn verification_mode_is_observable() {
    let enforcing = VerifierConfig::enforcing(test_key());
    assert!(enforcing.verify_enabled);
    let bypassed = VerifierConfig::bypassed(test_key());
    assert!(!bypassed.verify_enabled);
}

#[test]
fn eight_way_proposal_counts_every_option() {
    let labels: Vec<String> = (0..8).map(|i| format!("option {}", i)).collect();
    let mut proposal = open_proposal(8, labels, 100);
    let mut registry = NullifierRegistry::new();
    let config = VerifierConfig::bypassed(test_key());
    for v in 0..8u8 {
        assert_eq!(
            cast_vote(&mut proposal, &mut registry, &config, 0, nullifier(v + 1), v, &[]),
            Ok(())
        );
    }
    assert_eq!(
        cast_vote(&mut proposal, &mut registry, &config, 0, nullifier(10), 7, &[]),
        Ok(())
    );
    assert_eq!(proposal.vote_counts, [1, 1, 1, 1, 1, 1, 1, 2]);
    let outcome = finalize_proposal(&mut proposal, AUTHORITY, 100).unwrap();
    assert_eq!(outcome, VoteOutcome::Winner(7, 2));
}
