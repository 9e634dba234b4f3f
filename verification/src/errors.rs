//! Error kinds for the voting core.

use vstd::prelude::*;

verus! {

/// Every way a proposal operation can fail.
///
/// Proof-validation failures are deliberately collapsed into the single
/// `InvalidProof` kind: distinguishing a parse failure from a pairing-check
/// failure would hand an adversary an oracle that aids proof forgery.
/// `AlreadyUsed` is kept separate because a replayed nullifier is an
/// expected, legitimate rejection, not a malformed input.
#[derive(Clone, Copy, Debug, PartialEq, Eq, Structural)]
pub enum VotingError {
    /// The voting window has closed: the current time is at or past the deadline.
    VotingEnded,
    /// The voting window is still open, so the proposal cannot be finalized yet.
    VotingNotEnded,
    /// The proposal was already finalized; no further transition is legal.
    ProposalFinalized,
    /// The chosen option is outside `[0, num_options)`.
    InvalidVote,
    /// The proof blob exceeds the maximum accepted size.
    ProofTooLarge,
    /// The proof blob is malformed or the pairing check rejected it.
    InvalidProof,
    /// A proposal must offer at least two options.
    TooFewOptions,
    /// A proposal can offer at most eight options.
    TooManyOptions,
    /// The number of option labels does not match `num_options`.
    OptionLabelsMismatch,
    /// The (proposal, nullifier) pair was already recorded: a double vote.
    AlreadyUsed,
}

} // verus!
