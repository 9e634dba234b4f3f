//! The nullifier registry: the sole mechanism preventing double voting.
//!
//! A voter's identity is never observable; what binds a vote to a voter is
//! the nullifier the circuit derives from the voter's secret and the
//! proposal. The registry enforces one record per `(proposal, nullifier)`
//! pair: `register` atomically checks for the pair and either creates the
//! record or fails with `AlreadyUsed` and changes nothing. Records are never
//! updated and never deleted — deleting one would reopen the replay it
//! prevents.

use vstd::prelude::*;

use crate::errors::VotingError;

verus! {

broadcast use vstd::array::group_array_axioms;

/// One accepted vote's mark: the nullifier and the proposal it was spent on.
/// Created exactly once, when the vote is accepted; immutable afterwards.
pub struct NullifierAccount {
    /// The 32-byte nullifier, opaque to this core.
    pub nullifier: [u8; 32],
    /// The identifier of the proposal the nullifier was spent on.
    pub proposal: u64,
}

impl NullifierAccount {
    /// The pair under which the record is keyed.
    pub open spec fn spec_key(self) -> (u64, Seq<u8>) {
        (self.proposal, self.nullifier@)
    }
}

/// The set of all `(proposal, nullifier)` pairs ever accepted.
///
/// Its view is that set of keys; the well-formedness invariant keeps one
/// record per key.
pub struct NullifierRegistry {
    records: Vec<NullifierAccount>,
}

impl View for NullifierRegistry {
    type V = Set<(u64, Seq<u8>)>;

    closed spec fn view(&self) -> Set<(u64, Seq<u8>)> {
        Set::new(
            |k: (u64, Seq<u8>)|
                exists|i: int|
                    0 <= i < self.records@.len() && (#[trigger] self.records@[i]).spec_key() == k,
        )
    }
}

impl NullifierRegistry {
    /// At most one record exists per `(proposal, nullifier)` pair.
    pub closed spec fn inv(&self) -> bool {
        forall|i: int, j: int|
            0 <= i < j < self.records@.len() ==> (#[trigger] self.records@[i]).spec_key() != (
            #[trigger] self.records@[j]).spec_key()
    }

    /// An empty registry: no pair has been spent.
    pub fn new() -> (r: NullifierRegistry)
        ensures
            r@ == Set::<(u64, Seq<u8>)>::empty(),
            r.inv(),
    {
        let r = NullifierRegistry { records: Vec::new() };
        proof {
            assert(r@ =~= Set::<(u64, Seq<u8>)>::empty());
        }
        r
    }

    /// Whether the pair `(proposal_id, nullifier)` was already spent.
    pub fn contains(&self, proposal_id: u64, nullifier: &[u8; 32]) -> (r: bool)
        ensures
            r == self@.contains((proposal_id, nullifier@)),
    {
        let n = self.records.len();
        let mut i: usize = 0;
        while i < n
            invariant
                i <= n,
                n == self.records@.len(),
                forall|k: int|
                    0 <= k < i ==> (#[trigger] self.records@[k]).spec_key() != (
                    proposal_id,
                    nullifier@,
                ),
            decreases n - i,
        {
            let rec = &self.records[i];
            if rec.proposal == proposal_id && bytes32_eq(&rec.nullifier, nullifier) {
                return true;
            }
            i = i + 1;
        }
        false
    }

    /// Atomically records the pair, or fails with `AlreadyUsed` and performs
    /// no mutation when a record for it already exists.
    pub fn register(&mut self, proposal_id: u64, nullifier: [u8; 32]) -> (r: Result<
        (),
        VotingError,
    >)
        requires
            old(self).inv(),
        ensures
            final(self).inv(),
            old(self)@.contains((proposal_id, nullifier@)) ==> r == Err::<(), VotingError>(
                VotingError::AlreadyUsed,
            ) && final(self)@ == old(self)@,
            !old(self)@.contains((proposal_id, nullifier@)) ==> r == Ok::<(), VotingError>(())
                && final(self)@ == old(self)@.insert((proposal_id, nullifier@)),
    {
        if self.contains(proposal_id, &nullifier) {
            return Err(VotingError::AlreadyUsed);
        }
        let ghost before = *self;
        self.records.push(NullifierAccount { nullifier, proposal: proposal_id });
        proof {
            assert forall|k: (u64, Seq<u8>)| #[trigger]
                self@.contains(k) implies before@.insert((proposal_id, nullifier@)).contains(
                k,
            ) by {
                let i = choose|i: int|
                    0 <= i < self.records@.len() && (#[trigger] self.records@[i]).spec_key() == k;
                if i < before.records@.len() {
                    assert(before.records@[i].spec_key() == k);
                }
            }
            assert forall|k: (u64, Seq<u8>)| #[trigger]
                before@.insert((proposal_id, nullifier@)).contains(k) implies self@.contains(
                k,
            ) by {
                if k == (proposal_id, nullifier@) {
                    assert(self.records@[self.records@.len() - 1].spec_key() == k);
                } else {
                    let i = choose|i: int|
                        0 <= i < before.records@.len() && (#[trigger] before.records@[i]).spec_key()
                            == k;
                    assert(self.records@[i].spec_key() == k);
                }
            }
            assert(self@ =~= before@.insert((proposal_id, nullifier@)));
            assert forall|i: int, j: int|
                0 <= i < j < self.records@.len() implies (#[trigger] self.records@[i]).spec_key()
                != (#[trigger] self.records@[j]).spec_key() by {
                if j == self.records@.len() - 1 {
                    assert(!before@.contains((proposal_id, nullifier@)));
                    assert(before.records@[i].spec_key() != (proposal_id, nullifier@));
                }
            }
        }
        Ok(())
    }
}

/// Compares two 32-byte values for equality.
pub fn bytes32_eq(a: &[u8; 32], b: &[u8; 32]) -> (r: bool)
    ensures
        r == (a@ == b@),
{
    let mut i: usize = 0;
    while i < 32
        invariant
            i <= 32,
            forall|k: int| 0 <= k < i ==> a@[k] == b@[k],
        decreases 32 - i,
    {
        if a[i] != b[i] {
            return false;
        }
        i = i + 1;
    }
    proof {
        assert(a@ =~= b@);
    }
    true
}

} // verus!
