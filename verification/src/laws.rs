//! The guarantees of the voting core, each stated over the spec-level models
//! that the executable transitions are proved to match.

use vstd::prelude::*;

use crate::MAX_PROOF_SIZE;
use crate::errors::VotingError;
use crate::groth16::VerifierConfigView;
use crate::groth16::spec_proof_valid;
use crate::machine::count_matching;
use crate::machine::lemma_sum_nonneg;
use crate::machine::spec_cast_vote;
use crate::machine::spec_finalize;
use crate::machine::sum_counts;
use crate::proposal::ProposalView;

verus! {

/// Law (uniqueness): a cast that succeeds finds its `(proposal, nullifier)`
/// pair unspent and leaves it spent; while the pair stays spent, every cast
/// with it fails and changes nothing, and an otherwise-valid retry fails
/// with exactly `AlreadyUsed`.
pub proof fn lemma_nullifier_single_use(
    p: ProposalView,
    used: Set<(u64, Seq<u8>)>,
    config: VerifierConfigView,
    now: i64,
    nullifier: Seq<u8>,
    vote: u8,
    proof: Seq<u8>,
)
    ensures
        ({
            let (res, pv, uv) = spec_cast_vote(p, used, config, now, nullifier, vote, proof);
            &&& res is Ok ==> !used.contains((p.proposal_id, nullifier)) && uv == used.insert(
                (p.proposal_id, nullifier),
            )
            &&& used.contains((p.proposal_id, nullifier)) ==> res is Err && pv == p && uv == used
            &&& (used.contains((p.proposal_id, nullifier)) && !p.is_finalized && now
                < p.voting_ends_at && vote < p.num_options && proof.len() <= MAX_PROOF_SIZE && (
            config.verify_enabled ==> spec_proof_valid(
                proof,
                p.voters_root,
                nullifier,
                p.proposal_id,
                vote,
                p.num_options,
                config.key,
            ))) ==> res == Err::<(), VotingError>(VotingError::AlreadyUsed)
        }),
{
}

/// Law (at most one success, ever): once a cast with a nullifier has
/// succeeded on a proposal, a later cast with the same nullifier on that
/// proposal fails and changes nothing, in every later state whose spent set
/// still holds what the first cast recorded — and pairs are only ever added.
pub proof fn lemma_no_double_vote(
    p1: ProposalView,
    used1: Set<(u64, Seq<u8>)>,
    config1: VerifierConfigView,
    now1: i64,
    nullifier: Seq<u8>,
    vote1: u8,
    proof1: Seq<u8>,
    p2: ProposalView,
    used2: Set<(u64, Seq<u8>)>,
    config2: VerifierConfigView,
    now2: i64,
    vote2: u8,
    proof2: Seq<u8>,
)
    requires
        spec_cast_vote(p1, used1, config1, now1, nullifier, vote1, proof1).0 is Ok,
        spec_cast_vote(p1, used1, config1, now1, nullifier, vote1, proof1).2.subset_of(used2),
        p2.proposal_id == p1.proposal_id,
    ensures
        spec_cast_vote(p2, used2, config2, now2, nullifier, vote2, proof2).0 is Err,
        spec_cast_vote(p2, used2, config2, now2, nullifier, vote2, proof2).1 == p2,
        spec_cast_vote(p2, used2, config2, now2, nullifier, vote2, proof2).2 == used2,
{
    let uv1 = spec_cast_vote(p1, used1, config1, now1, nullifier, vote1, proof1).2;
    assert(uv1.contains((p1.proposal_id, nullifier)));
    assert(used2.contains((p2.proposal_id, nullifier)));
}

/// Law (every cast only grows the spent set): whatever a cast returns, every
/// pair spent before the call is still spent after it.
pub proof fn lemma_spent_set_monotonic(
    p: ProposalView,
    used: Set<(u64, Seq<u8>)>,
    config: VerifierConfigView,
    now: i64,
    nullifier: Seq<u8>,
    vote: u8,
    proof: Seq<u8>,
)
    ensures
        used.subset_of(spec_cast_vote(p, used, config, now, nullifier, vote, proof).2),
{
}

/// Law (tally step): a successful cast raises the chosen option's counter by
/// one, and with it the total over the active options by exactly one, while
/// a failed cast leaves the proposal unchanged.
pub proof fn lemma_cast_tally_step(
    p: ProposalView,
    used: Set<(u64, Seq<u8>)>,
    config: VerifierConfigView,
    now: i64,
    nullifier: Seq<u8>,
    vote: u8,
    proof: Seq<u8>,
)
    requires
        p.wf(),
        vote < p.num_options ==> p.vote_counts[vote as int] < u64::MAX,
    ensures
        ({
            let (res, pv, uv) = spec_cast_vote(p, used, config, now, nullifier, vote, proof);
            if res is Ok {
                sum_counts(pv.vote_counts, p.num_options as int) == sum_counts(
                    p.vote_counts,
                    p.num_options as int,
                ) + 1
            } else {
                pv == p
            }
        }),
{
    let (res, pv, uv) = spec_cast_vote(p, used, config, now, nullifier, vote, proof);
    if res is Ok {
        lemma_sum_update(
            p.vote_counts,
            p.num_options as int,
            vote as int,
            (p.vote_counts[vote as int] + 1) as u64,
        );
    }
}

/// Replacing counter `i` changes the sum by exactly the difference.
pub proof fn lemma_sum_update(counts: Seq<u64>, n: int, i: int, v: u64)
    requires
        0 <= i < n <= counts.len(),
    ensures
        sum_counts(counts.update(i, v), n) == sum_counts(counts, n) - counts[i] + v,
    decreases n,
{
    if i == n - 1 {
        lemma_sum_prefix_unchanged(counts, counts.update(i, v), n - 1);
    } else {
        lemma_sum_update(counts, n - 1, i, v);
    }
}

/// Two counter sequences equal below `n` have the same partial sum.
pub proof fn lemma_sum_prefix_unchanged(a: Seq<u64>, b: Seq<u64>, n: int)
    requires
        n <= a.len(),
        n <= b.len(),
        forall|k: int| 0 <= k < n ==> a[k] == b[k],
    ensures
        sum_counts(a, n) == sum_counts(b, n),
    decreases n,
{
    if n > 0 {
        lemma_sum_prefix_unchanged(a, b, n - 1);
    }
}

/// Every counter is at most the sum over any range covering it.
pub proof fn lemma_count_le_sum(counts: Seq<u64>, n: int, i: int)
    requires
        0 <= i < n,
    ensures
        counts[i] <= sum_counts(counts, n),
    decreases n,
{
    if i == n - 1 {
        lemma_sum_nonneg(counts, n - 1);
    } else {
        lemma_count_le_sum(counts, n - 1, i);
    }
}

/// The tally of a fresh proposal: every counter at zero.
pub open spec fn zero_counts() -> Seq<u64> {
    Seq::new(8, |i: int| 0u64)
}

/// The counters left by a run of accepted votes, applied in order to `counts`.
pub open spec fn tally_after(counts: Seq<u64>, votes: Seq<u8>) -> Seq<u64>
    decreases votes.len(),
{
    if votes.len() == 0 {
        counts
    } else {
        let prev = tally_after(counts, votes.drop_last());
        prev.update(votes.last() as int, (prev[votes.last() as int] + 1) as u64)
    }
}

/// Law (tally conservation): starting from the all-zero tally of a fresh
/// proposal, any run of accepted in-range votes leaves the counters over the
/// active options summing to exactly the number of votes in the run — every
/// accepted vote is counted once and nothing else is ever counted.
pub proof fn lemma_tally_conservation(votes: Seq<u8>, num_options: u8)
    requires
        2 <= num_options <= 8,
        forall|k: int| 0 <= k < votes.len() ==> (#[trigger] votes[k]) < num_options,
        votes.len() <= u64::MAX,
    ensures
        tally_after(zero_counts(), votes).len() == 8,
        sum_counts(tally_after(zero_counts(), votes), num_options as int) == votes.len(),
    decreases votes.len(),
{
    let n = num_options as int;
    if votes.len() == 0 {
        lemma_zero_sum(zero_counts(), n);
    } else {
        let shorter = votes.drop_last();
        assert(forall|k: int| 0 <= k < shorter.len() ==> (#[trigger] shorter[k]) < num_options);
        lemma_tally_conservation(shorter, num_options);
        let prev = tally_after(zero_counts(), shorter);
        let v = votes.last() as int;
        lemma_count_le_sum(prev, n, v);
        lemma_sum_update(prev, n, v, (prev[v] + 1) as u64);
    }
}

/// An all-zero prefix sums to zero.
pub proof fn lemma_zero_sum(counts: Seq<u64>, n: int)
    requires
        forall|k: int| 0 <= k < n ==> counts[k] == 0u64,
    ensures
        sum_counts(counts, n) == 0,
    decreases n,
{
    if n > 0 {
        lemma_zero_sum(counts, n - 1);
    }
}

/// Law (range enforcement): on an open proposal, a vote value at or above
/// the option count always fails with `InvalidVote` and causes no mutation.
pub proof fn lemma_vote_range_enforced(
    p: ProposalView,
    used: Set<(u64, Seq<u8>)>,
    config: VerifierConfigView,
    now: i64,
    nullifier: Seq<u8>,
    vote: u8,
    proof: Seq<u8>,
)
    requires
        !p.is_finalized,
        now < p.voting_ends_at,
        vote >= p.num_options,
    ensures
        spec_cast_vote(p, used, config, now, nullifier, vote, proof) == (
            Err::<(), VotingError>(VotingError::InvalidVote),
            p,
            used,
        ),
{
}

/// Law (lifecycle monotonicity): finalization is terminal. On a finalized
/// proposal every cast fails with `ProposalFinalized` and every further
/// finalization fails — with `ProposalFinalized` once the deadline has
/// passed — and neither changes any state.
pub proof fn lemma_finalized_is_terminal(
    p: ProposalView,
    used: Set<(u64, Seq<u8>)>,
    config: VerifierConfigView,
    now: i64,
    nullifier: Seq<u8>,
    vote: u8,
    proof: Seq<u8>,
    later: i64,
)
    requires
        p.is_finalized,
    ensures
        spec_cast_vote(p, used, config, now, nullifier, vote, proof) == (
            Err::<(), VotingError>(VotingError::ProposalFinalized),
            p,
            used,
        ),
        spec_finalize(p, later).0 is Err,
        spec_finalize(p, later).1 == p,
        later >= p.voting_ends_at ==> spec_finalize(p, later).0 == Err::<
            crate::machine::VoteOutcome,
            VotingError,
        >(VotingError::ProposalFinalized),
{
}

/// Law (finalization latches): a finalization that succeeds leaves the
/// proposal finalized, so by the terminal law every later transition fails.
pub proof fn lemma_finalize_latches(p: ProposalView, now: i64)
    requires
        spec_finalize(p, now).0 is Ok,
    ensures
        spec_finalize(p, now).1.is_finalized,
{
}

/// Law (window enforcement): for every deadline, an unfinalized proposal
/// rejects casts with `VotingEnded` from the deadline on, and rejects
/// finalization with `VotingNotEnded` strictly before it.
pub proof fn lemma_voting_window(
    p: ProposalView,
    used: Set<(u64, Seq<u8>)>,
    config: VerifierConfigView,
    now: i64,
    nullifier: Seq<u8>,
    vote: u8,
    proof: Seq<u8>,
)
    ensures
        !p.is_finalized && now >= p.voting_ends_at ==> spec_cast_vote(
            p,
            used,
            config,
            now,
            nullifier,
            vote,
            proof,
        ) == (Err::<(), VotingError>(VotingError::VotingEnded), p, used),
        now < p.voting_ends_at ==> spec_finalize(p, now) == (
            Err::<crate::machine::VoteOutcome, VotingError>(VotingError::VotingNotEnded),
            p,
        ),
{
}

} // verus!
