//! Canonical encoding of the circuit's public inputs.
//!
//! The proof is checked against an ordered vector of five 32-byte big-endian
//! field elements: voters root, nullifier, proposal id, vote, number of
//! options. Scalars are right-aligned and zero-padded. The order is a binding
//! contract with the circuit: reordering breaks verification with no error
//! signature other than a rejected proof.

use vstd::prelude::*;

verus! {

broadcast use vstd::array::group_array_axioms;

/// Width of one encoded field element, in bytes.
pub const FIELD_ELEMENT_BYTES: usize = 32;

/// Byte `k` (0 = most significant) of the big-endian form of `v`.
pub open spec fn spec_u64_be_byte(v: u64, k: int) -> u8
    recommends
        0 <= k < 8,
{
    if k == 0 {
        (v >> 56u64) as u8
    } else if k == 1 {
        (v >> 48u64) as u8
    } else if k == 2 {
        (v >> 40u64) as u8
    } else if k == 3 {
        (v >> 32u64) as u8
    } else if k == 4 {
        (v >> 24u64) as u8
    } else if k == 5 {
        (v >> 16u64) as u8
    } else if k == 6 {
        (v >> 8u64) as u8
    } else {
        v as u8
    }
}

/// The 32-byte field element holding `v`: 24 zero bytes, then `v` big-endian.
pub open spec fn spec_u64_to_be32(v: u64) -> Seq<u8> {
    Seq::new(32, |i: int| if i < 24 { 0u8 } else { spec_u64_be_byte(v, i - 24) })
}

/// The 32-byte field element holding `v`: 31 zero bytes, then `v`.
pub open spec fn spec_u8_to_be32(v: u8) -> Seq<u8> {
    Seq::new(32, |i: int| if i < 31 { 0u8 } else { v })
}

/// The ordered public-input vector the circuit is checked against.
pub open spec fn spec_public_inputs(
    voters_root: Seq<u8>,
    nullifier: Seq<u8>,
    proposal_id: u64,
    vote: u8,
    num_options: u8,
) -> Seq<Seq<u8>> {
    seq![
        voters_root,
        nullifier,
        spec_u64_to_be32(proposal_id),
        spec_u8_to_be32(vote),
        spec_u8_to_be32(num_options),
    ]
}

/// Holds exactly when `s` is a well-padded field element of a `u64`.
pub open spec fn spec_is_be32_u64(s: Seq<u8>) -> bool {
    s.len() == 32 && forall|i: int| 0 <= i < 24 ==> s[i] == 0u8
}

/// Holds exactly when `s` is a well-padded field element of a `u8`.
pub open spec fn spec_is_be32_u8(s: Seq<u8>) -> bool {
    s.len() == 32 && forall|i: int| 0 <= i < 31 ==> s[i] == 0u8
}

/// The `u64` read back from the last eight bytes of a field element.
pub open spec fn spec_be32_to_u64(s: Seq<u8>) -> u64
    recommends
        s.len() == 32,
{
    ((s[24] as u64) << 56u64) | ((s[25] as u64) << 48u64) | ((s[26] as u64) << 40u64)
        | ((s[27] as u64) << 32u64) | ((s[28] as u64) << 24u64) | ((s[29] as u64) << 16u64)
        | ((s[30] as u64) << 8u64) | (s[31] as u64)
}

/// The values recovered from a public-input vector, or `None` where the
/// vector is not a well-formed encoding.
pub open spec fn spec_decode_inputs(inputs: Seq<Seq<u8>>) -> Option<
    (Seq<u8>, Seq<u8>, u64, u8, u8),
> {
    if inputs.len() == 5 && inputs[0].len() == 32 && inputs[1].len() == 32 && spec_is_be32_u64(
        inputs[2],
    ) && spec_is_be32_u8(inputs[3]) && spec_is_be32_u8(inputs[4]) {
        Some(
            (inputs[0], inputs[1], spec_be32_to_u64(inputs[2]), inputs[3][31], inputs[4][31]),
        )
    } else {
        None
    }
}

/// Writes `v` into a fresh field element, big-endian and right-aligned.
pub fn u64_to_be32(v: u64) -> (r: [u8; 32])
    ensures
        r@ == spec_u64_to_be32(v),
{
    let mut r = [0u8; 32];
    r[24] = (v >> 56u64) as u8;
    r[25] = (v >> 48u64) as u8;
    r[26] = (v >> 40u64) as u8;
    r[27] = (v >> 32u64) as u8;
    r[28] = (v >> 24u64) as u8;
    r[29] = (v >> 16u64) as u8;
    r[30] = (v >> 8u64) as u8;
    r[31] = v as u8;
    proof {
        assert(r@ =~= spec_u64_to_be32(v));
    }
    r
}

/// Writes `v` into a fresh field element, right-aligned.
pub fn u8_to_be32(v: u8) -> (r: [u8; 32])
    ensures
        r@ == spec_u8_to_be32(v),
{
    let mut r = [0u8; 32];
    r[31] = v;
    proof {
        assert(r@ =~= spec_u8_to_be32(v));
    }
    r
}

/// Builds the public-input vector for one vote, in the circuit's order.
pub fn encode_public_inputs(
    voters_root: &[u8; 32],
    nullifier: &[u8; 32],
    proposal_id: u64,
    vote: u8,
    num_options: u8,
) -> (r: [[u8; 32]; 5])
    ensures
        r.deep_view() == spec_public_inputs(
            voters_root@,
            nullifier@,
            proposal_id,
            vote,
            num_options,
        ),
{
    let r = [
        *voters_root,
        *nullifier,
        u64_to_be32(proposal_id),
        u8_to_be32(vote),
        u8_to_be32(num_options),
    ];
    proof {
        lemma_inputs_deep_view(r);
        assert(r.deep_view() =~~= spec_public_inputs(
            voters_root@,
            nullifier@,
            proposal_id,
            vote,
            num_options,
        ));
    }
    r
}

/// Each element of the deep view of an input vector is the view of that element.
proof fn lemma_inputs_deep_view(inputs: [[u8; 32]; 5])
    ensures
        inputs.deep_view().len() == 5,
        forall|e: int| 0 <= e < 5 ==> #[trigger] inputs.deep_view()[e] == inputs@[e]@,
{
    assert forall|e: int| 0 <= e < 5 implies #[trigger] inputs.deep_view()[e] == inputs@[e]@ by {
        assert(inputs.deep_view()[e] =~= inputs@[e]@);
    }
}

/// Reads the five values back out of an encoded public-input vector.
/// Returns `None` where a scalar element carries nonzero padding.
pub fn decode_public_inputs(inputs: &[[u8; 32]; 5]) -> (r: Option<
    ([u8; 32], [u8; 32], u64, u8, u8),
>)
    ensures
        r is Some <==> spec_decode_inputs(inputs.deep_view()) is Some,
        r matches Some((root, nullifier, id, vote, num_options)) ==> spec_decode_inputs(
            inputs.deep_view(),
        ) == Some((root@, nullifier@, id, vote, num_options)),
{
    proof {
        lemma_inputs_deep_view(*inputs);
    }
    let mut i: usize = 0;
    while i < 24
        invariant
            i <= 24,
            forall|k: int| 0 <= k < i ==> inputs[2]@[k] == 0u8,
        decreases 24 - i,
    {
        if inputs[2][i] != 0 {
            proof {
                assert(inputs.deep_view()[2][i as int] != 0u8);
                assert(!spec_is_be32_u64(inputs.deep_view()[2]));
            }
            return None;
        }
        i = i + 1;
    }
    let mut j: usize = 0;
    while j < 31
        invariant
            j <= 31,
            forall|k: int| 0 <= k < j ==> inputs[3]@[k] == 0u8 && inputs[4]@[k] == 0u8,
        decreases 31 - j,
    {
        if inputs[3][j] != 0 || inputs[4][j] != 0 {
            proof {
                assert(inputs.deep_view()[3][j as int] != 0u8 || inputs.deep_view()[4][j as int]
                    != 0u8);
                assert(!spec_is_be32_u8(inputs.deep_view()[3]) || !spec_is_be32_u8(
                    inputs.deep_view()[4],
                ));
            }
            return None;
        }
        j = j + 1;
    }
    let id: u64 = ((inputs[2][24] as u64) << 56u64) | ((inputs[2][25] as u64) << 48u64) | ((
    inputs[2][26] as u64) << 40u64) | ((inputs[2][27] as u64) << 32u64) | ((inputs[2][28] as u64)
        << 24u64) | ((inputs[2][29] as u64) << 16u64) | ((inputs[2][30] as u64) << 8u64) | (
    inputs[2][31] as u64);
    Some((inputs[0], inputs[1], id, inputs[3][31], inputs[4][31]))
}

/// Law (encoding round trip): decoding an encoded public-input vector
/// recovers exactly the five values that were encoded, for every proposal id,
/// vote and option count, and every 32-byte root and nullifier.
pub proof fn lemma_public_input_round_trip(
    voters_root: Seq<u8>,
    nullifier: Seq<u8>,
    proposal_id: u64,
    vote: u8,
    num_options: u8,
)
    requires
        voters_root.len() == 32,
        nullifier.len() == 32,
    ensures
        spec_decode_inputs(
            spec_public_inputs(voters_root, nullifier, proposal_id, vote, num_options),
        ) == Some((voters_root, nullifier, proposal_id, vote, num_options)),
{
    let inputs = spec_public_inputs(voters_root, nullifier, proposal_id, vote, num_options);
    assert(spec_is_be32_u64(inputs[2]));
    assert(spec_is_be32_u8(inputs[3]));
    assert(spec_is_be32_u8(inputs[4]));
    lemma_u64_be32_round_trip(proposal_id);
}

/// A `u64` survives the trip into and back out of a field element.
pub proof fn lemma_u64_be32_round_trip(v: u64)
    ensures
        spec_be32_to_u64(spec_u64_to_be32(v)) == v,
{
    let s = spec_u64_to_be32(v);
    let b0 = s[24];
    let b1 = s[25];
    let b2 = s[26];
    let b3 = s[27];
    let b4 = s[28];
    let b5 = s[29];
    let b6 = s[30];
    let b7 = s[31];
    assert(((b0 as u64) << 56u64) | ((b1 as u64) << 48u64) | ((b2 as u64) << 40u64) | ((
    b3 as u64) << 32u64) | ((b4 as u64) << 24u64) | ((b5 as u64) << 16u64) | ((b6 as u64)
        << 8u64) | (b7 as u64) == v) by (bit_vector)
        requires
            b0 == (v >> 56u64) as u8,
            b1 == (v >> 48u64) as u8,
            b2 == (v >> 40u64) as u8,
            b3 == (v >> 32u64) as u8,
            b4 == (v >> 24u64) as u8,
            b5 == (v >> 16u64) as u8,
            b6 == (v >> 8u64) as u8,
            b7 == v as u8,
    ;
}

} // verus!
