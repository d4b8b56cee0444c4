//! Flattening of proof objects into the ordered word vectors the verifier
//! contract consumes.
//!
//! Both protocol layouts have a fixed, contract-fixed field order: each
//! first-group point contributes its two words (`x` then `y`), each scalar
//! one word. Reordering silently breaks on-chain verification, so the
//! order is pinned exactly by the specification functions below.

use vstd::prelude::*;

use crate::primitives::{fe_word, g1_words, serialize_fe, serialize_g1};
use crate::types::{
    AggregatedProof, FieldElement, G1Point, OldProof, Proof, SerializationError,
    SerializedAggregatedProof, Uint256,
};
use vstd::slice::slice_to_vec;

verus! {

/// The byte words held by a vector of encoded values.
pub open spec fn words_of(s: Seq<Uint256>) -> Seq<Seq<u8>> {
    s.map_values(|w: Uint256| w@)
}

/// Each scalar of a list contributes one word, in list order.
pub open spec fn fe_list_words(s: Seq<FieldElement>) -> Seq<Seq<u8>> {
    s.map_values(|fe: FieldElement| fe@)
}

/// Each point of a list contributes its two words, in list order.
pub open spec fn g1_list_words(s: Seq<G1Point>) -> Seq<Seq<u8>>
    decreases s.len(),
{
    if s.len() == 0 {
        Seq::empty()
    } else {
        g1_list_words(s.drop_last()) + g1_words(s.last())
    }
}

/// The flattened proof vector of the current protocol layout, field by
/// field in its contract-fixed order. Gate-setup openings add no words: a
/// proof of this layout carries none.
pub open spec fn new_proof_flat(p: Proof) -> Seq<Seq<u8>> {
    g1_list_words(p.state_polys_commitments@) + g1_words(
        p.copy_permutation_grand_product_commitment,
    ) + g1_list_words(p.quotient_poly_parts_commitments@) + fe_list_words(
        p.state_polys_openings_at_z@,
    ) + fe_list_words(p.state_polys_openings_at_dilations@) + fe_list_words(
        p.gate_selectors_openings_at_z@,
    ) + fe_list_words(p.copy_permutation_polys_openings_at_z@) + seq![
        fe_word(p.copy_permutation_grand_product_opening_at_z_omega),
        fe_word(p.quotient_poly_opening_at_z),
        fe_word(p.linearization_poly_opening_at_z),
    ] + g1_words(p.opening_proof_at_z) + g1_words(p.opening_proof_at_z_omega)
}

/// The flattened proof vector of the legacy protocol layout, field by
/// field in its contract-fixed order.
pub open spec fn old_proof_flat(p: OldProof) -> Seq<Seq<u8>> {
    g1_list_words(p.wire_commitments@) + g1_words(p.grand_product_commitment) + g1_list_words(
        p.quotient_poly_commitments@,
    ) + fe_list_words(p.wire_values_at_z@) + fe_list_words(p.wire_values_at_z_omega@) + seq![
        fe_word(p.grand_product_at_z_omega),
        fe_word(p.quotient_polynomial_at_z),
        fe_word(p.linearization_polynomial_at_z),
    ] + fe_list_words(p.permutation_polynomials_at_z@) + g1_words(p.opening_at_z_proof)
        + g1_words(p.opening_at_z_omega_proof)
}

/// Appends one scalar word.
fn push_fe(out: &mut Vec<Uint256>, fe: &FieldElement)
    ensures
        words_of(final(out)@) == words_of(old(out)@) + seq![fe_word(*fe)],
{
    let w = serialize_fe(fe);
    out.push(w);
    proof {
        assert(words_of(out@) =~= words_of(old(out)@) + seq![fe_word(*fe)]);
    }
}

/// Appends the two words of one point.
fn push_g1(out: &mut Vec<Uint256>, p: &G1Point)
    ensures
        words_of(final(out)@) == words_of(old(out)@) + g1_words(*p),
{
    let (x, y) = serialize_g1(p);
    out.push(x);
    out.push(y);
    proof {
        assert(words_of(out@) =~= words_of(old(out)@) + g1_words(*p));
    }
}

/// Appends one word per scalar of a list, in order.
fn push_fe_list(out: &mut Vec<Uint256>, list: &Vec<FieldElement>)
    ensures
        words_of(final(out)@) == words_of(old(out)@) + fe_list_words(list@),
{
    let mut i: usize = 0;
    while i < list.len()
        invariant
            i <= list@.len(),
            words_of(out@) == words_of(old(out)@) + fe_list_words(list@.take(i as int)),
        decreases list@.len() - i,
    {
        let ghost prev = out@;
        let w = serialize_fe(&list[i]);
        out.push(w);
        proof {
            assert(words_of(out@) =~= words_of(prev).push(list@[i as int]@));
            assert(fe_list_words(list@.take(i as int + 1)) =~= fe_list_words(
                list@.take(i as int),
            ).push(list@[i as int]@));
            assert(words_of(out@) =~= words_of(old(out)@) + fe_list_words(
                list@.take(i as int + 1),
            ));
        }
        i = i + 1;
    }
    proof {
        assert(list@.take(list@.len() as int) =~= list@);
    }
}

/// Appends two words per point of a list, in order.
fn push_g1_list(out: &mut Vec<Uint256>, list: &Vec<G1Point>)
    ensures
        words_of(final(out)@) == words_of(old(out)@) + g1_list_words(list@),
{
    let mut i: usize = 0;
    while i < list.len()
        invariant
            i <= list@.len(),
            words_of(out@) == words_of(old(out)@) + g1_list_words(list@.take(i as int)),
        decreases list@.len() - i,
    {
        let ghost prev = out@;
        push_g1(out, &list[i]);
        proof {
            lemma_g1_list_words_take_step(list@, i as int);
            assert(words_of(out@) == words_of(prev) + g1_words(list@[i as int]));
            assert(words_of(out@) =~= words_of(old(out)@) + g1_list_words(
                list@.take(i as int + 1),
            ));
        }
        i = i + 1;
    }
    proof {
        assert(list@.take(list@.len() as int) =~= list@);
    }
}

proof fn lemma_g1_list_words_take_step(s: Seq<G1Point>, i: int)
    requires
        0 <= i < s.len(),
    ensures
        g1_list_words(s.take(i + 1)) == g1_list_words(s.take(i)) + g1_words(s[i]),
{
    assert(s.take(i + 1).drop_last() =~= s.take(i));
    assert(s.take(i + 1).last() == s[i]);
}

/// Flattens a current-layout proof into its public-input vector and its
/// proof-element vector. A proof whose gate-setup opening list is not
/// empty does not fit this layout, so the call returns an error and no
/// word vector at all.
pub fn serialize_new_proof(p: &Proof) -> (r: Result<
    (Vec<Uint256>, Vec<Uint256>),
    SerializationError,
>)
    ensures
        match r {
            Ok(iw) => {
                &&& p.gate_setup_openings_at_z@.len() == 0
                &&& words_of(iw.0@) == fe_list_words(p.inputs@)
                &&& words_of(iw.1@) == new_proof_flat(*p)
            },
            Err(e) => {
                &&& p.gate_setup_openings_at_z@.len() != 0
                &&& e == SerializationError::NonEmptyGateSetupOpenings
            },
        },
{
    if p.gate_setup_openings_at_z.len() != 0 {
        return Err(SerializationError::NonEmptyGateSetupOpenings);
    }
    let mut inputs: Vec<Uint256> = Vec::new();
    push_fe_list(&mut inputs, &p.inputs);
    let mut words: Vec<Uint256> = Vec::new();
    push_g1_list(&mut words, &p.state_polys_commitments);
    push_g1(&mut words, &p.copy_permutation_grand_product_commitment);
    push_g1_list(&mut words, &p.quotient_poly_parts_commitments);
    push_fe_list(&mut words, &p.state_polys_openings_at_z);
    push_fe_list(&mut words, &p.state_polys_openings_at_dilations);
    push_fe_list(&mut words, &p.gate_selectors_openings_at_z);
    push_fe_list(&mut words, &p.copy_permutation_polys_openings_at_z);
    push_fe(&mut words, &p.copy_permutation_grand_product_opening_at_z_omega);
    push_fe(&mut words, &p.quotient_poly_opening_at_z);
    push_fe(&mut words, &p.linearization_poly_opening_at_z);
    push_g1(&mut words, &p.opening_proof_at_z);
    push_g1(&mut words, &p.opening_proof_at_z_omega);
    proof {
        assert(words_of(inputs@) =~= fe_list_words(p.inputs@));
        assert(words_of(words@) =~= new_proof_flat(*p));
    }
    Ok((inputs, words))
}

/// Flattens a legacy-layout proof into its public-input vector and its
/// proof-element vector. The legacy layout is total: no structural check
/// applies.
pub fn serialize_proof(p: &OldProof) -> (r: (Vec<Uint256>, Vec<Uint256>))
    ensures
        words_of(r.0@) == fe_list_words(p.input_values@),
        words_of(r.1@) == old_proof_flat(*p),
{
    let mut inputs: Vec<Uint256> = Vec::new();
    push_fe_list(&mut inputs, &p.input_values);
    let mut words: Vec<Uint256> = Vec::new();
    push_g1_list(&mut words, &p.wire_commitments);
    push_g1(&mut words, &p.grand_product_commitment);
    push_g1_list(&mut words, &p.quotient_poly_commitments);
    push_fe_list(&mut words, &p.wire_values_at_z);
    push_fe_list(&mut words, &p.wire_values_at_z_omega);
    push_fe(&mut words, &p.grand_product_at_z_omega);
    push_fe(&mut words, &p.quotient_polynomial_at_z);
    push_fe(&mut words, &p.linearization_polynomial_at_z);
    push_fe_list(&mut words, &p.permutation_polynomials_at_z);
    push_g1(&mut words, &p.opening_at_z_proof);
    push_g1(&mut words, &p.opening_at_z_omega_proof);
    proof {
        assert(words_of(inputs@) =~= fe_list_words(p.input_values@));
        assert(words_of(words@) =~= old_proof_flat(*p));
    }
    (inputs, words)
}

impl AggregatedProof {
    /// Serializes into the 5-part sequence of the verifier contract's
    /// aggregation entry point: `[inputs, proof, vk_indexes,
    /// individual_inputs, limbs]`. Fails when the limb list does not hold
    /// exactly 16 limbs, or when the inner proof violates its own layout.
    pub fn serialize(&self) -> (r: Result<SerializedAggregatedProof, SerializationError>)
        ensures
            match r {
                Ok(s) => {
                    &&& self.proof.gate_setup_openings_at_z@.len() == 0
                    &&& self.aggr_limbs@.len() == 16
                    &&& words_of(s.inputs@) == fe_list_words(self.proof.inputs@)
                    &&& words_of(s.proof_words@) == new_proof_flat(self.proof)
                    &&& s.vk_idxs@ == self.individual_vk_idxs@
                    &&& words_of(s.vk_inputs@) == fe_list_words(self.individual_vk_inputs@)
                    &&& words_of(s.limbs@) == fe_list_words(self.aggr_limbs@)
                },
                Err(e) => (if self.proof.gate_setup_openings_at_z@.len() != 0 {
                    e == SerializationError::NonEmptyGateSetupOpenings
                } else {
                    self.aggr_limbs@.len() != 16 && e == SerializationError::WrongLimbCount
                }),
            },
    {
        let iw = match serialize_new_proof(&self.proof) {
            Ok(x) => x,
            Err(e) => {
                return Err(e);
            },
        };
        if self.aggr_limbs.len() != 16 {
            return Err(SerializationError::WrongLimbCount);
        }
        let mut vk_inputs: Vec<Uint256> = Vec::new();
        push_fe_list(&mut vk_inputs, &self.individual_vk_inputs);
        let mut limbs: Vec<Uint256> = Vec::new();
        push_fe_list(&mut limbs, &self.aggr_limbs);
        let vk_idxs: Vec<u8> = slice_to_vec(self.individual_vk_idxs.as_slice());
        proof {
            assert(words_of(vk_inputs@) =~= fe_list_words(self.individual_vk_inputs@));
            assert(words_of(limbs@) =~= fe_list_words(self.aggr_limbs@));
        }
        Ok(
            SerializedAggregatedProof {
                inputs: iw.0,
                proof_words: iw.1,
                vk_idxs,
                vk_inputs,
                limbs,
            },
        )
    }
}

/// There are two words for every point of a list.
pub proof fn lemma_g1_list_words_len(s: Seq<G1Point>)
    ensures
        g1_list_words(s).len() == 2 * s.len(),
    decreases s.len(),
{
    if s.len() > 0 {
        lemma_g1_list_words_len(s.drop_last());
    }
}

/// Law: the flattened proof-vector length is a fixed function of the list
/// lengths. With `k` state-polynomial commitments (and the `k` matching
/// openings at the evaluation point), `m` quotient parts, `d` dilation
/// openings, `s` gate-selector openings and `q` permutation openings, the
/// vector holds exactly `2k + 2 + 2m + k + d + s + q + 1 + 1 + 1 + 2 + 2`
/// words.
pub proof fn lemma_new_proof_flat_len(p: Proof, k: nat, m: nat, d: nat, s: nat, q: nat)
    requires
        p.state_polys_commitments@.len() == k,
        p.quotient_poly_parts_commitments@.len() == m,
        p.state_polys_openings_at_z@.len() == k,
        p.state_polys_openings_at_dilations@.len() == d,
        p.gate_selectors_openings_at_z@.len() == s,
        p.copy_permutation_polys_openings_at_z@.len() == q,
    ensures
        new_proof_flat(p).len() == 2 * k + 2 + 2 * m + k + d + s + q + 1 + 1 + 1 + 2 + 2,
{
    lemma_g1_list_words_len(p.state_polys_commitments@);
    lemma_g1_list_words_len(p.quotient_poly_parts_commitments@);
}

/// Two scalars hold the same value.
pub open spec fn fe_obs_eq(a: FieldElement, b: FieldElement) -> bool {
    a@ == b@
}

/// Two scalar lists hold the same values in the same order.
pub open spec fn fes_obs_eq(s1: Seq<FieldElement>, s2: Seq<FieldElement>) -> bool {
    s1.len() == s2.len() && (forall|i: int| 0 <= i < s1.len() ==> #[trigger] s1[i]@ == s2[i]@)
}

/// Two points hold the same value: both the identity, or both affine with
/// equal coordinates.
pub open spec fn g1_obs_eq(a: G1Point, b: G1Point) -> bool {
    match (a, b) {
        (G1Point::Identity, G1Point::Identity) => true,
        (
            G1Point::Affine { x: x1, y: y1 },
            G1Point::Affine { x: x2, y: y2 },
        ) => x1@ == x2@ && y1@ == y2@,
        _ => false,
    }
}

/// Two point lists hold the same values in the same order.
pub open spec fn g1s_obs_eq(s1: Seq<G1Point>, s2: Seq<G1Point>) -> bool {
    s1.len() == s2.len() && (forall|i: int|
        0 <= i < s1.len() ==> g1_obs_eq(#[trigger] s1[i], s2[i]))
}

/// Two current-layout proofs hold the same values field for field.
pub open spec fn proof_obs_eq(p1: Proof, p2: Proof) -> bool {
    &&& fes_obs_eq(p1.inputs@, p2.inputs@)
    &&& g1s_obs_eq(p1.state_polys_commitments@, p2.state_polys_commitments@)
    &&& g1_obs_eq(
        p1.copy_permutation_grand_product_commitment,
        p2.copy_permutation_grand_product_commitment,
    )
    &&& g1s_obs_eq(p1.quotient_poly_parts_commitments@, p2.quotient_poly_parts_commitments@)
    &&& fes_obs_eq(p1.state_polys_openings_at_z@, p2.state_polys_openings_at_z@)
    &&& fes_obs_eq(p1.state_polys_openings_at_dilations@, p2.state_polys_openings_at_dilations@)
    &&& fes_obs_eq(p1.gate_setup_openings_at_z@, p2.gate_setup_openings_at_z@)
    &&& fes_obs_eq(p1.gate_selectors_openings_at_z@, p2.gate_selectors_openings_at_z@)
    &&& fes_obs_eq(
        p1.copy_permutation_polys_openings_at_z@,
        p2.copy_permutation_polys_openings_at_z@,
    )
    &&& fe_obs_eq(
        p1.copy_permutation_grand_product_opening_at_z_omega,
        p2.copy_permutation_grand_product_opening_at_z_omega,
    )
    &&& fe_obs_eq(p1.quotient_poly_opening_at_z, p2.quotient_poly_opening_at_z)
    &&& fe_obs_eq(p1.linearization_poly_opening_at_z, p2.linearization_poly_opening_at_z)
    &&& g1_obs_eq(p1.opening_proof_at_z, p2.opening_proof_at_z)
    &&& g1_obs_eq(p1.opening_proof_at_z_omega, p2.opening_proof_at_z_omega)
}

/// Equal scalar lists contribute equal words.
pub proof fn lemma_fe_list_words_congruent(s1: Seq<FieldElement>, s2: Seq<FieldElement>)
    requires
        fes_obs_eq(s1, s2),
    ensures
        fe_list_words(s1) == fe_list_words(s2),
{
    assert(fe_list_words(s1) =~= fe_list_words(s2));
}

/// Equal points contribute equal words.
pub proof fn lemma_g1_words_congruent(a: G1Point, b: G1Point)
    requires
        g1_obs_eq(a, b),
    ensures
        g1_words(a) == g1_words(b),
{
    assert(g1_words(a) =~= g1_words(b));
}

/// Equal point lists contribute equal words.
pub proof fn lemma_g1_list_words_congruent(s1: Seq<G1Point>, s2: Seq<G1Point>)
    requires
        g1s_obs_eq(s1, s2),
    ensures
        g1_list_words(s1) == g1_list_words(s2),
    decreases s1.len(),
{
    if s1.len() > 0 {
        assert(g1s_obs_eq(s1.drop_last(), s2.drop_last()));
        lemma_g1_list_words_congruent(s1.drop_last(), s2.drop_last());
        assert(g1_obs_eq(s1.last(), s2.last()));
        lemma_g1_words_congruent(s1.last(), s2.last());
    }
}

/// Law: flattening is deterministic — proofs that hold the same values
/// field for field flatten to identical input and proof-word sequences.
pub proof fn lemma_new_proof_flat_deterministic(p1: Proof, p2: Proof)
    requires
        proof_obs_eq(p1, p2),
    ensures
        fe_list_words(p1.inputs@) == fe_list_words(p2.inputs@),
        new_proof_flat(p1) == new_proof_flat(p2),
{
    lemma_fe_list_words_congruent(p1.inputs@, p2.inputs@);
    lemma_g1_list_words_congruent(p1.state_polys_commitments@, p2.state_polys_commitments@);
    lemma_g1_words_congruent(
        p1.copy_permutation_grand_product_commitment,
        p2.copy_permutation_grand_product_commitment,
    );
    lemma_g1_list_words_congruent(
        p1.quotient_poly_parts_commitments@,
        p2.quotient_poly_parts_commitments@,
    );
    lemma_fe_list_words_congruent(p1.state_polys_openings_at_z@, p2.state_polys_openings_at_z@);
    lemma_fe_list_words_congruent(
        p1.state_polys_openings_at_dilations@,
        p2.state_polys_openings_at_dilations@,
    );
    lemma_fe_list_words_congruent(
        p1.gate_selectors_openings_at_z@,
        p2.gate_selectors_openings_at_z@,
    );
    lemma_fe_list_words_congruent(
        p1.copy_permutation_polys_openings_at_z@,
        p2.copy_permutation_polys_openings_at_z@,
    );
    lemma_g1_words_congruent(p1.opening_proof_at_z, p2.opening_proof_at_z);
    lemma_g1_words_congruent(p1.opening_proof_at_z_omega, p2.opening_proof_at_z_omega);
}

/// Two aggregated proofs hold the same values part for part.
pub open spec fn aggregated_obs_eq(a: AggregatedProof, b: AggregatedProof) -> bool {
    &&& proof_obs_eq(a.proof, b.proof)
    &&& a.individual_vk_idxs@ == b.individual_vk_idxs@
    &&& fes_obs_eq(a.individual_vk_inputs@, b.individual_vk_inputs@)
    &&& fes_obs_eq(a.aggr_limbs@, b.aggr_limbs@)
}

/// Law: aggregated serialization is deterministic and idempotent — equal
/// inputs give byte-identical 5-part output, so re-serializing the same
/// object always reproduces the same bytes.
pub proof fn lemma_aggregated_serialize_deterministic(a: AggregatedProof, b: AggregatedProof)
    requires
        aggregated_obs_eq(a, b),
    ensures
        fe_list_words(a.proof.inputs@) == fe_list_words(b.proof.inputs@),
        new_proof_flat(a.proof) == new_proof_flat(b.proof),
        a.individual_vk_idxs@ == b.individual_vk_idxs@,
        fe_list_words(a.individual_vk_inputs@) == fe_list_words(b.individual_vk_inputs@),
        fe_list_words(a.aggr_limbs@) == fe_list_words(b.aggr_limbs@),
{
    lemma_new_proof_flat_deterministic(a.proof, b.proof);
    lemma_fe_list_words_congruent(a.individual_vk_inputs@, b.individual_vk_inputs@);
    lemma_fe_list_words_congruent(a.aggr_limbs@, b.aggr_limbs@);
}

} // verus!
