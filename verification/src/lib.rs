//! Core of a privacy-preserving voting protocol.
//!
//! Voters prove membership in an authorized set with a Groth16 zero-knowledge
//! proof over BN254 and cast exactly one vote per proposal, identified only by
//! a nullifier. This crate holds the verified core: the canonical public-input
//! encoding the proof is checked against, the adapter around the pairing
//! check, the nullifier registry that prevents double voting, and the proposal
//! lifecycle state machine with its multi-option tally.
//!
//! Persistent storage, signing, and time come from the host: every operation
//! takes the current time and the caller's identity as plain values.

use vstd::prelude::*;

mod encode;
mod errors;
mod groth16;
mod laws;
mod machine;
mod proposal;
mod registry;

pub use encode::FIELD_ELEMENT_BYTES;
pub use encode::decode_public_inputs;
pub use encode::encode_public_inputs;
pub use encode::lemma_public_input_round_trip;
pub use encode::lemma_u64_be32_round_trip;
pub use encode::spec_be32_to_u64;
pub use encode::spec_decode_inputs;
pub use encode::spec_is_be32_u64;
pub use encode::spec_is_be32_u8;
pub use encode::spec_public_inputs;
pub use encode::spec_u64_be_byte;
pub use encode::spec_u64_to_be32;
pub use encode::spec_u8_to_be32;
pub use encode::u64_to_be32;
pub use encode::u8_to_be32;
pub use errors::VotingError;
pub use groth16::VerifierConfig;
pub use groth16::VerifierConfigView;
pub use groth16::VerifyingKey;
pub use groth16::VerifyingKeyView;
pub use groth16::groth16_pairing_accepts;
pub use groth16::spec_proof_valid;
pub use groth16::verify_groth16_proof;
pub use laws::lemma_cast_tally_step;
pub use laws::lemma_count_le_sum;
pub use laws::lemma_finalize_latches;
pub use laws::lemma_finalized_is_terminal;
pub use laws::lemma_no_double_vote;
pub use laws::lemma_nullifier_single_use;
pub use laws::lemma_spent_set_monotonic;
pub use laws::lemma_sum_prefix_unchanged;
pub use laws::lemma_sum_update;
pub use laws::lemma_tally_conservation;
pub use laws::lemma_vote_range_enforced;
pub use laws::lemma_voting_window;
pub use laws::lemma_zero_sum;
pub use laws::tally_after;
pub use laws::zero_counts;
pub use machine::VoteOutcome;
pub use machine::cast_vote;
pub use machine::count_matching;
pub use machine::finalize_proposal;
pub use machine::lemma_count_matching_nonneg;
pub use machine::lemma_count_matching_one;
pub use machine::lemma_count_matching_two;
pub use machine::lemma_max_attained;
pub use machine::lemma_sum_nonneg;
pub use machine::lemma_sum_prefix_le;
pub use machine::max_count;
pub use machine::spec_cast_vote;
pub use machine::spec_finalize;
pub use machine::spec_outcome;
pub use machine::sum_counts;
pub use proposal::MAX_DESCRIPTION_CHARS;
pub use proposal::MAX_LABEL_CHARS;
pub use proposal::MAX_TITLE_CHARS;
pub use proposal::Proposal;
pub use proposal::ProposalView;
pub use proposal::create_proposal;
pub use proposal::spec_fresh_proposal;
pub use registry::NullifierAccount;
pub use registry::NullifierRegistry;
pub use registry::bytes32_eq;

verus! {

/// Largest proof blob a vote may carry, in bytes.
pub const MAX_PROOF_SIZE: usize = 512;

/// Number of public inputs the circuit is checked against:
/// voters root, nullifier, proposal id, vote, number of options.
pub const PUBLIC_INPUT_COUNT: usize = 5;

/// Largest number of options a proposal may offer.
pub const MAX_VOTE_OPTIONS: u8 = 8;

} // verus!
