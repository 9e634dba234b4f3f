//! The per-proposal ledger entry: configuration, live tallies, lifecycle flag.

use vstd::prelude::*;

use crate::MAX_VOTE_OPTIONS;
use crate::errors::VotingError;

verus! {

broadcast use vstd::array::group_array_axioms;

/// Longest title, in characters.
pub const MAX_TITLE_CHARS: usize = 64;

/// Longest description, in characters.
pub const MAX_DESCRIPTION_CHARS: usize = 256;

/// Longest option label, in characters.
pub const MAX_LABEL_CHARS: usize = 32;

/// One vote topic: its immutable configuration, its live tallies and its
/// lifecycle flag. The host stores it; its content and invariants are defined
/// here.
#[derive(Debug)]
pub struct Proposal {
    /// Globally unique identifier, chosen by the creator.
    pub proposal_id: u64,
    /// Merkle-root commitment to the authorized voter set.
    pub voters_root: [u8; 32],
    /// The identity permitted to finalize, as 32 key bytes.
    pub authority: [u8; 32],
    /// Display title, at most 64 characters.
    pub title: String,
    /// Display description, at most 256 characters.
    pub description: String,
    /// Number of vote options, in `[2, 8]`.
    pub num_options: u8,
    /// One counter per option; only indices below `num_options` are meaningful.
    pub vote_counts: [u64; 8],
    /// One label per option, each at most 32 characters.
    pub option_labels: Vec<String>,
    /// Unix-seconds deadline: votes are accepted strictly before it.
    pub voting_ends_at: i64,
    /// False until finalization, then permanently true.
    pub is_finalized: bool,
}

/// The mathematical content of a proposal.
pub struct ProposalView {
    pub proposal_id: u64,
    pub voters_root: Seq<u8>,
    pub authority: Seq<u8>,
    pub title: Seq<char>,
    pub description: Seq<char>,
    pub num_options: u8,
    pub vote_counts: Seq<u64>,
    pub option_labels: Seq<Seq<char>>,
    pub voting_ends_at: i64,
    pub is_finalized: bool,
}

impl View for Proposal {
    type V = ProposalView;

    open spec fn view(&self) -> ProposalView {
        ProposalView {
            proposal_id: self.proposal_id,
            voters_root: self.voters_root@,
            authority: self.authority@,
            title: self.title@,
            description: self.description@,
            num_options: self.num_options,
            vote_counts: self.vote_counts@,
            option_labels: self.option_labels.deep_view(),
            voting_ends_at: self.voting_ends_at,
            is_finalized: self.is_finalized,
        }
    }
}

impl ProposalView {
    /// Well-formedness: the bounds every constructed proposal satisfies and
    /// every transition preserves.
    pub open spec fn wf(self) -> bool {
        &&& 2 <= self.num_options <= MAX_VOTE_OPTIONS
        &&& self.vote_counts.len() == 8
        &&& self.voters_root.len() == 32
        &&& self.authority.len() == 32
        &&& self.option_labels.len() == self.num_options
        &&& self.title.len() <= MAX_TITLE_CHARS
        &&& self.description.len() <= MAX_DESCRIPTION_CHARS
        &&& forall|i: int|
            0 <= i < self.option_labels.len() ==> (#[trigger] self.option_labels[i]).len()
                <= MAX_LABEL_CHARS
    }
}

/// The proposal a successful creation yields: every counter zero, not
/// finalized, configuration as given.
pub open spec fn spec_fresh_proposal(
    proposal_id: u64,
    voters_root: Seq<u8>,
    authority: Seq<u8>,
    title: Seq<char>,
    description: Seq<char>,
    voting_ends_at: i64,
    num_options: u8,
    option_labels: Seq<Seq<char>>,
) -> ProposalView {
    ProposalView {
        proposal_id,
        voters_root,
        authority,
        title,
        description,
        num_options,
        vote_counts: Seq::new(8, |i: int| 0u64),
        option_labels,
        voting_ends_at,
        is_finalized: false,
    }
}

/// Initializes a proposal in the open state.
///
/// Fails with `TooFewOptions` or `TooManyOptions` when `num_options` leaves
/// `[2, 8]`, and with `OptionLabelsMismatch` when the labels do not pair up
/// with the options, in that order; succeeds otherwise, with every tally
/// counter at zero.
pub fn create_proposal(
    proposal_id: u64,
    voters_root: [u8; 32],
    authority: [u8; 32],
    title: String,
    description: String,
    voting_ends_at: i64,
    num_options: u8,
    option_labels: Vec<String>,
) -> (r: Result<Proposal, VotingError>)
    requires
        title@.len() <= MAX_TITLE_CHARS,
        description@.len() <= MAX_DESCRIPTION_CHARS,
        forall|i: int|
            0 <= i < option_labels@.len() ==> (#[trigger] option_labels@[i])@.len()
                <= MAX_LABEL_CHARS,
    ensures
        num_options < 2 ==> r == Err::<Proposal, VotingError>(VotingError::TooFewOptions),
        num_options > MAX_VOTE_OPTIONS ==> r == Err::<Proposal, VotingError>(
            VotingError::TooManyOptions,
        ),
        2 <= num_options <= MAX_VOTE_OPTIONS && option_labels@.len() != num_options ==> r
            == Err::<Proposal, VotingError>(VotingError::OptionLabelsMismatch),
        2 <= num_options <= MAX_VOTE_OPTIONS && option_labels@.len() == num_options ==> r is Ok
            && r->Ok_0@ == spec_fresh_proposal(
            proposal_id,
            voters_root@,
            authority@,
            title@,
            description@,
            voting_ends_at,
            num_options,
            option_labels.deep_view(),
        ) && r->Ok_0@.wf(),
{
    if num_options < 2 {
        return Err(VotingError::TooFewOptions);
    }
    if num_options > MAX_VOTE_OPTIONS {
        return Err(VotingError::TooManyOptions);
    }
    if option_labels.len() != num_options as usize {
        return Err(VotingError::OptionLabelsMismatch);
    }
    let proposal = Proposal {
        proposal_id,
        voters_root,
        authority,
        title,
        description,
        num_options,
        vote_counts: [0u64; 8],
        option_labels,
        voting_ends_at,
        is_finalized: false,
    };
    proof {
        assert(proposal.vote_counts@ =~= Seq::new(8, |i: int| 0u64));
        assert(forall|i: int|
            0 <= i < proposal.option_labels@.len() ==> (#[trigger] proposal.option_labels.deep_view()[i]).len()
                <= MAX_LABEL_CHARS);
    }
    Ok(proposal)
}

} // verus!
