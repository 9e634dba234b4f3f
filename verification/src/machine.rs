//! The voting state machine: guards, verification, registration, tallying.
//!
//! Each transition is specified by a spec-level model (`spec_cast_vote`,
//! `spec_finalize`) that the executable functions are proved to match
//! exactly: the result, the proposal after the call and the registry after
//! the call are all pinned to the model. Every failure leaves both the
//! proposal and the registry unchanged — a call is all-or-nothing.

use vstd::prelude::*;

use crate::MAX_PROOF_SIZE;
use crate::errors::VotingError;
use crate::groth16::VerifierConfig;
use crate::groth16::VerifierConfigView;
use crate::groth16::spec_proof_valid;
use crate::groth16::verify_groth16_proof;
use crate::proposal::Proposal;
use crate::proposal::ProposalView;
use crate::registry::NullifierRegistry;

verus! {

broadcast use vstd::array::group_array_axioms;

/// The summary a finalized proposal reports.
#[derive(Clone, Copy, Debug, PartialEq, Eq, Structural)]
pub enum VoteOutcome {
    /// No vote was cast on any option.
    NoVotes,
    /// More than one option attained the maximum count.
    Tie,
    /// Exactly one option attained the maximum: its index and its count.
    Winner(u8, u64),
}

/// Sum of the first `n` counters.
pub open spec fn sum_counts(counts: Seq<u64>, n: int) -> int
    decreases n,
{
    if n <= 0 {
        0
    } else {
        sum_counts(counts, n - 1) + counts[n - 1]
    }
}

/// Largest value among the first `n` counters (zero when `n` is zero).
pub open spec fn max_count(counts: Seq<u64>, n: int) -> u64
    decreases n,
{
    if n <= 0 {
        0u64
    } else if counts[n - 1] > max_count(counts, n - 1) {
        counts[n - 1]
    } else {
        max_count(counts, n - 1)
    }
}

/// How many of the first `n` counters hold exactly `v`.
pub open spec fn count_matching(counts: Seq<u64>, n: int, v: u64) -> int
    decreases n,
{
    if n <= 0 {
        0
    } else {
        count_matching(counts, n - 1, v) + if counts[n - 1] == v {
            1int
        } else {
            0int
        }
    }
}

/// The outcome finalization reports for the first `n` counters: `NoVotes`
/// when no vote was cast at all, `Tie` when more than one option shares the
/// maximum, otherwise the unique maximal option and its count. The no-votes
/// test comes first: an all-zero tally is `NoVotes`, never `Tie`.
pub open spec fn spec_outcome(counts: Seq<u64>, n: int) -> VoteOutcome {
    let m = max_count(counts, n);
    if sum_counts(counts, n) == 0 {
        VoteOutcome::NoVotes
    } else if count_matching(counts, n, m) > 1 {
        VoteOutcome::Tie
    } else {
        VoteOutcome::Winner((choose|i: int| 0 <= i < n && counts[i] == m) as u8, m)
    }
}

/// The model of one CastVote call: the result, the proposal afterwards and
/// the spent-pair set afterwards. The guards run in this fixed order:
/// lifecycle, window, vote range, proof size, proof validity (unless
/// bypassed), nullifier freshness. Only when all pass is the pair recorded
/// and the chosen counter raised by one, together.
pub open spec fn spec_cast_vote(
    p: ProposalView,
    used: Set<(u64, Seq<u8>)>,
    config: VerifierConfigView,
    now: i64,
    nullifier: Seq<u8>,
    vote: u8,
    proof: Seq<u8>,
) -> (Result<(), VotingError>, ProposalView, Set<(u64, Seq<u8>)>) {
    if p.is_finalized {
        (Err(VotingError::ProposalFinalized), p, used)
    } else if now >= p.voting_ends_at {
        (Err(VotingError::VotingEnded), p, used)
    } else if vote >= p.num_options {
        (Err(VotingError::InvalidVote), p, used)
    } else if proof.len() > MAX_PROOF_SIZE {
        (Err(VotingError::ProofTooLarge), p, used)
    } else if config.verify_enabled && !spec_proof_valid(
        proof,
        p.voters_root,
        nullifier,
        p.proposal_id,
        vote,
        p.num_options,
        config.key,
    ) {
        (Err(VotingError::InvalidProof), p, used)
    } else if used.contains((p.proposal_id, nullifier)) {
        (Err(VotingError::AlreadyUsed), p, used)
    } else {
        (
            Ok(()),
            ProposalView {
                vote_counts: p.vote_counts.update(
                    vote as int,
                    (p.vote_counts[vote as int] + 1) as u64,
                ),
                ..p
            },
            used.insert((p.proposal_id, nullifier)),
        )
    }
}

/// The model of one Finalize call: the window must have closed and the
/// proposal must not already be finalized; then the flag is set permanently
/// and the outcome summary is computed from the live tallies.
pub open spec fn spec_finalize(p: ProposalView, now: i64) -> (
    Result<VoteOutcome, VotingError>,
    ProposalView,
) {
    if now < p.voting_ends_at {
        (Err(VotingError::VotingNotEnded), p)
    } else if p.is_finalized {
        (Err(VotingError::ProposalFinalized), p)
    } else {
        (
            Ok(spec_outcome(p.vote_counts, p.num_options as int)),
            ProposalView { is_finalized: true, ..p },
        )
    }
}

/// Casts one vote: validates the lifecycle, the window, the vote value, the
/// proof size, the proof itself (unless verification is bypassed) and the
/// nullifier's freshness, in that order; on success records the nullifier
/// and raises the chosen option's counter by one. Any failure aborts with no
/// state change. The result and both final states equal the model
/// `spec_cast_vote` on the initial states.
pub fn cast_vote(
    proposal: &mut Proposal,
    registry: &mut NullifierRegistry,
    config: &VerifierConfig,
    now: i64,
    nullifier: [u8; 32],
    vote: u8,
    proof_data: &[u8],
) -> (r: Result<(), VotingError>)
    requires
        old(proposal)@.wf(),
        old(registry).inv(),
        vote < old(proposal).num_options ==> old(proposal).vote_counts@[vote as int] < u64::MAX,
    ensures
        final(proposal)@.wf(),
        final(registry).inv(),
        ({
            let (res, pv, uv) = spec_cast_vote(
                old(proposal)@,
                old(registry)@,
                config@,
                now,
                nullifier@,
                vote,
                proof_data@,
            );
            r == res && final(proposal)@ == pv && final(registry)@ == uv
        }),
{
    if proposal.is_finalized {
        return Err(VotingError::ProposalFinalized);
    }
    if now >= proposal.voting_ends_at {
        return Err(VotingError::VotingEnded);
    }
    if vote >= proposal.num_options {
        return Err(VotingError::InvalidVote);
    }
    if proof_data.len() > MAX_PROOF_SIZE {
        return Err(VotingError::ProofTooLarge);
    }
    if config.verify_enabled {
        let checked = verify_groth16_proof(
            proof_data,
            &proposal.voters_root,
            &nullifier,
            proposal.proposal_id,
            vote,
            proposal.num_options,
            &config.key,
        );
        if let Err(e) = checked {
            return Err(e);
        }
    }
    if let Err(e) = registry.register(proposal.proposal_id, nullifier) {
        return Err(e);
    }
    let c = proposal.vote_counts[vote as usize];
    proposal.vote_counts[vote as usize] = c + 1;
    Ok(())
}

/// Finalizes a voting round: legal only once the deadline has passed and
/// only once, and only for the stored authority — the host asserts the
/// caller's identity, stated here as a precondition. Sets the flag
/// permanently and reports the outcome summary; the result and the final
/// state equal the model `spec_finalize` on the initial state.
pub fn finalize_proposal(proposal: &mut Proposal, authority: [u8; 32], now: i64) -> (r: Result<
    VoteOutcome,
    VotingError,
>)
    requires
        old(proposal)@.wf(),
        authority@ == old(proposal)@.authority,
        sum_counts(old(proposal).vote_counts@, old(proposal).num_options as int) <= u64::MAX,
    ensures
        final(proposal)@.wf(),
        ({
            let (res, pv) = spec_finalize(old(proposal)@, now);
            r == res && final(proposal)@ == pv
        }),
{
    if now < proposal.voting_ends_at {
        return Err(VotingError::VotingNotEnded);
    }
    if proposal.is_finalized {
        return Err(VotingError::ProposalFinalized);
    }
    proposal.is_finalized = true;
    let counts: [u64; 8] = proposal.vote_counts;
    let n: usize = proposal.num_options as usize;
    let ghost cs = counts@;
    let ghost nn = n as int;
    proof {
        assert(cs == old(proposal)@.vote_counts);
        assert(proposal@ == (ProposalView { is_finalized: true, ..old(proposal)@ }));
    }
    let mut total: u64 = 0;
    let mut max_votes: u64 = 0;
    let mut winning_option: usize = 0;
    let mut i: usize = 0;
    while i < n
        invariant
            i <= n,
            n <= 8,
            cs.len() == 8,
            counts@ == cs,
            total == sum_counts(cs, i as int),
            sum_counts(cs, nn) <= u64::MAX,
            nn == n as int,
            max_votes == max_count(cs, i as int),
            winning_option < 8,
            i == 0 ==> winning_option == 0,
            i > 0 ==> winning_option < i && cs[winning_option as int] == max_votes,
        decreases n - i,
    {
        proof {
            lemma_sum_prefix_le(cs, i + 1, nn);
            lemma_sum_nonneg(cs, i as int);
        }
        total = total + counts[i];
        if counts[i] > max_votes {
            max_votes = counts[i];
            winning_option = i;
        }
        i = i + 1;
    }
    let mut ties: usize = 0;
    let mut j: usize = 0;
    while j < n
        invariant
            j <= n,
            n <= 8,
            cs.len() == 8,
            counts@ == cs,
            ties == count_matching(cs, j as int, max_votes),
            ties <= j,
            nn == n as int,
            max_votes == max_count(cs, nn),
            n > 0 ==> winning_option < n && cs[winning_option as int] == max_votes,
            winning_option < 8,
        decreases n - j,
    {
        if counts[j] == max_votes {
            ties = ties + 1;
        }
        j = j + 1;
    }
    let outcome: VoteOutcome = if total == 0 {
        VoteOutcome::NoVotes
    } else if ties > 1 {
        VoteOutcome::Tie
    } else {
        proof {
            lemma_max_attained(cs, nn);
            let w = choose|k: int| 0 <= k < nn && cs[k] == max_count(cs, nn);
            if w != winning_option as int {
                if w < winning_option as int {
                    lemma_count_matching_two(cs, nn, max_votes, w, winning_option as int);
                } else {
                    lemma_count_matching_two(cs, nn, max_votes, winning_option as int, w);
                }
            }
        }
        VoteOutcome::Winner(winning_option as u8, max_votes)
    };
    proof {
        assert(proposal@ == (ProposalView { is_finalized: true, ..old(proposal)@ }));
    }
    Ok(outcome)
}

/// A sum of counters is never negative.
pub proof fn lemma_sum_nonneg(counts: Seq<u64>, n: int)
    ensures
        sum_counts(counts, n) >= 0,
    decreases n,
{
    if n > 0 {
        lemma_sum_nonneg(counts, n - 1);
    }
}

/// A prefix of the counters sums to no more than the whole range.
pub proof fn lemma_sum_prefix_le(counts: Seq<u64>, i: int, n: int)
    requires
        0 <= i <= n,
    ensures
        sum_counts(counts, i) <= sum_counts(counts, n),
    decreases n,
{
    if i < n {
        lemma_sum_prefix_le(counts, i, n - 1);
    }
}

/// Some counter below `n` attains the maximum, as soon as there is one.
pub proof fn lemma_max_attained(counts: Seq<u64>, n: int)
    requires
        n >= 1,
    ensures
        exists|i: int| 0 <= i < n && counts[i] == max_count(counts, n),
    decreases n,
{
    if n == 1 {
        assert(max_count(counts, 0) == 0u64);
        assert(counts[0] == max_count(counts, 1));
    } else if counts[n - 1] > max_count(counts, n - 1) {
        assert(counts[n - 1] == max_count(counts, n));
    } else {
        lemma_max_attained(counts, n - 1);
    }
}

/// Two distinct counters holding `v` put the matching count at two or more.
pub proof fn lemma_count_matching_two(counts: Seq<u64>, n: int, v: u64, a: int, b: int)
    requires
        0 <= a < b < n,
        counts[a] == v,
        counts[b] == v,
    ensures
        count_matching(counts, n, v) >= 2,
    decreases n,
{
    if b == n - 1 {
        lemma_count_matching_one(counts, n - 1, v, a);
    } else {
        lemma_count_matching_two(counts, n - 1, v, a, b);
        assert(count_matching(counts, n, v) >= count_matching(counts, n - 1, v));
    }
}

/// A counter holding `v` puts the matching count at one or more.
pub proof fn lemma_count_matching_one(counts: Seq<u64>, n: int, v: u64, a: int)
    requires
        0 <= a < n,
        counts[a] == v,
    ensures
        count_matching(counts, n, v) >= 1,
    decreases n,
{
    if a < n - 1 {
        lemma_count_matching_one(counts, n - 1, v, a);
        assert(count_matching(counts, n, v) >= count_matching(counts, n - 1, v));
    } else {
        lemma_count_matching_nonneg(counts, n - 1, v);
    }
}

/// A matching count is never negative.
pub proof fn lemma_count_matching_nonneg(counts: Seq<u64>, n: int, v: u64)
    ensures
        count_matching(counts, n, v) >= 0,
    decreases n,
{
    if n > 0 {
        lemma_count_matching_nonneg(counts, n - 1, v);
    }
}

} // verus!
