//! Adapter around the Groth16 pairing check over BN254.
//!
//! A proof blob is 256 bytes: `proof_a` (64-byte G1 point, negated encoding),
//! `proof_b` (128-byte G2 point), `proof_c` (64-byte G1 point), all
//! big-endian. The adapter splits the blob, builds the public-input vector,
//! and hands both to the pairing-product check. It is pure: no state is
//! touched, and a rejected proof leaves nothing behind, so it is safe to call
//! speculatively and to retry.
//!
//! Every failure path — a blob that is too short, a segment that is not a
//! valid curve point, a pairing product that does not close — collapses into
//! the single `InvalidProof` kind, so that the error signature leaks nothing
//! about which sub-check failed.

use vstd::prelude::*;

use crate::encode::encode_public_inputs;
use crate::encode::spec_public_inputs;
use crate::errors::VotingError;

verus! {

broadcast use vstd::array::group_array_axioms;

/// A Groth16 verifying key over BN254: one G1 point `alpha`, three G2 points
/// `beta`, `gamma`, `delta`, and the input-commitment points `ic`, one more
/// than the number of public inputs. Provisioned once per deployed circuit
/// and never mutated.
pub struct VerifyingKey {
    /// `alpha` in G1, 64 bytes big-endian.
    pub alpha: [u8; 64],
    /// `beta` in G2, 128 bytes big-endian.
    pub beta: [u8; 128],
    /// `gamma` in G2, 128 bytes big-endian.
    pub gamma: [u8; 128],
    /// `delta` in G2, 128 bytes big-endian.
    pub delta: [u8; 128],
    /// Input-commitment points in G1, 64 bytes each, `ic[0]` the base.
    pub ic: Vec<[u8; 64]>,
}

/// The mathematical content of a verifying key: each point as a byte sequence.
pub struct VerifyingKeyView {
    pub alpha: Seq<u8>,
    pub beta: Seq<u8>,
    pub gamma: Seq<u8>,
    pub delta: Seq<u8>,
    pub ic: Seq<Seq<u8>>,
}

impl View for VerifyingKey {
    type V = VerifyingKeyView;

    open spec fn view(&self) -> VerifyingKeyView {
        VerifyingKeyView {
            alpha: self.alpha@,
            beta: self.beta@,
            gamma: self.gamma@,
            delta: self.delta@,
            ic: self.ic.deep_view(),
        }
    }
}

/// Whether proofs are checked on-core, and against which key.
///
/// With `verify_enabled` false the pairing check is bypassed: cryptographic
/// soundness is then not enforced here and must come from an off-band
/// process. The flag is a first-class, observable part of the configuration
/// so that an audit can always tell which mode is active.
pub struct VerifierConfig {
    /// True when every vote must carry a proof that passes the pairing check.
    pub verify_enabled: bool,
    /// The verifying key of the deployed circuit.
    pub key: VerifyingKey,
}

/// The mathematical content of a verifier configuration.
pub struct VerifierConfigView {
    pub verify_enabled: bool,
    pub key: VerifyingKeyView,
}

impl View for VerifierConfig {
    type V = VerifierConfigView;

    open spec fn view(&self) -> VerifierConfigView {
        VerifierConfigView { verify_enabled: self.verify_enabled, key: self.key@ }
    }
}

impl VerifierConfig {
    /// A configuration that enforces the pairing check against `key`.
    pub fn enforcing(key: VerifyingKey) -> (r: VerifierConfig)
        ensures
            r@ == (VerifierConfigView { verify_enabled: true, key: key@ }),
    {
        VerifierConfig { verify_enabled: true, key }
    }

    /// A configuration that bypasses the pairing check: proofs are accepted
    /// unread and must be checked off-band. `key` is carried but unused.
    pub fn bypassed(key: VerifyingKey) -> (r: VerifierConfig)
        ensures
            r@ == (VerifierConfigView { verify_enabled: false, key: key@ }),
    {
        VerifierConfig { verify_enabled: false, key }
    }
}

/// Whether the Groth16 pairing-product check accepts the proof points
/// `(proof_a, proof_b, proof_c)` against `public_inputs` and `key`. A pure
/// function of its arguments; it holds only when every segment parses as a
/// curve point and the pairing product closes.
pub uninterp spec fn groth16_pairing_accepts(
    proof_a: Seq<u8>,
    proof_b: Seq<u8>,
    proof_c: Seq<u8>,
    public_inputs: Seq<Seq<u8>>,
    key: VerifyingKeyView,
) -> bool;

/// Relies on `groth16_solana::groth16::Groth16Verifier`: `new` checks the
/// point and input-vector lengths, `verify` runs the pairing-product check
/// over BN254; both return every failure as an error value, and the outcome
/// is a deterministic function of the proof points, the public inputs and
/// the key.
#[verifier::external_body]
fn groth16_pairing_check(
    proof_a: &[u8; 64],
    proof_b: &[u8; 128],
    proof_c: &[u8; 64],
    public_inputs: &[[u8; 32]; 5],
    key: &VerifyingKey,
) -> (r: bool)
    ensures
        r == groth16_pairing_accepts(
            proof_a@,
            proof_b@,
            proof_c@,
            public_inputs.deep_view(),
            key@,
        ),
{
    let vk = groth16_solana::groth16::Groth16Verifyingkey {
        nr_pubinputs: public_inputs.len(),
        vk_alpha_g1: key.alpha,
        vk_beta_g2: key.beta,
        vk_gamme_g2: key.gamma,
        vk_delta_g2: key.delta,
        vk_ic: key.ic.as_slice(),
    };
    match groth16_solana::groth16::Groth16Verifier::new(proof_a, proof_b, proof_c, public_inputs, &vk) {
        Ok(mut verifier) => verifier.verify().is_ok(),
        Err(_) => false,
    }
}

/// Copies `N` bytes of `data` starting at `start` into a fresh array.
fn read_segment<const N: usize>(data: &[u8], start: usize) -> (r: [u8; N])
    requires
        start + N <= data@.len(),
    ensures
        r@ == data@.subrange(start as int, start as int + N),
{
    let mut r = [0u8; N];
    let data_len: usize = data.len();
    let mut i: usize = 0;
    while i < N
        invariant
            i <= N,
            data_len == data@.len(),
            start + N <= data_len,
            forall|k: int| 0 <= k < i ==> r@[k] == data@[start + k],
        decreases N - i,
    {
        r[i] = data[start + i];
        i = i + 1;
    }
    proof {
        assert(r@ =~= data@.subrange(start as int, start as int + N));
    }
    r
}

/// Whether `proof` is a valid proof blob for the given vote: long enough to
/// carry the three points, and accepted by the pairing check against the
/// public inputs built from the vote's data.
pub open spec fn spec_proof_valid(
    proof: Seq<u8>,
    voters_root: Seq<u8>,
    nullifier: Seq<u8>,
    proposal_id: u64,
    vote: u8,
    num_options: u8,
    key: VerifyingKeyView,
) -> bool {
    &&& proof.len() >= 256
    &&& groth16_pairing_accepts(
        proof.subrange(0, 64),
        proof.subrange(64, 192),
        proof.subrange(192, 256),
        spec_public_inputs(voters_root, nullifier, proposal_id, vote, num_options),
        key,
    )
}

/// Checks one vote's proof blob against the verifying key.
///
/// Succeeds exactly when the blob carries at least the three proof points and
/// the pairing check accepts them against the canonical public-input vector;
/// every failure is the single opaque `InvalidProof`.
pub fn verify_groth16_proof(
    proof_data: &[u8],
    voters_root: &[u8; 32],
    nullifier: &[u8; 32],
    proposal_id: u64,
    vote: u8,
    num_options: u8,
    key: &VerifyingKey,
) -> (r: Result<(), VotingError>)
    ensures
        r is Ok <==> spec_proof_valid(
            proof_data@,
            voters_root@,
            nullifier@,
            proposal_id,
            vote,
            num_options,
            key@,
        ),
        r is Err ==> r == Err::<(), VotingError>(VotingError::InvalidProof),
{
    if proof_data.len() < 256 {
        return Err(VotingError::InvalidProof);
    }
    let proof_a: [u8; 64] = read_segment::<64>(proof_data, 0);
    let proof_b: [u8; 128] = read_segment::<128>(proof_data, 64);
    let proof_c: [u8; 64] = read_segment::<64>(proof_data, 192);
    let public_inputs = encode_public_inputs(voters_root, nullifier, proposal_id, vote, num_options);
    if groth16_pairing_check(&proof_a, &proof_b, &proof_c, &public_inputs, key) {
        Ok(())
    } else {
        Err(VotingError::InvalidProof)
    }
}

} // verus!
