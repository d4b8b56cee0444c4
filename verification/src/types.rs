//! Value types for the serialization layer: field elements, curve points,
//! proof and key structures, and the error type.
//!
//! Every algebraic object is held in its canonical 32-byte big-endian form,
//! exactly as the on-chain verifier consumes it; the proving library that
//! produces the original objects is expected to hand them over already
//! reduced, so no modular arithmetic happens here.

use vstd::prelude::*;
use vstd::slice::slice_to_vec;

verus! {

/// A 256-bit unsigned integer, kept as exactly 32 big-endian bytes.
#[derive(Debug)]
pub struct Uint256 {
    pub be_bytes: Vec<u8>,
}

impl Uint256 {
    /// The bytes are one full 32-byte word.
    pub open spec fn wf(&self) -> bool {
        self.be_bytes@.len() == 32
    }
}

impl View for Uint256 {
    type V = Seq<u8>;

    open spec fn view(&self) -> Seq<u8> {
        self.be_bytes@
    }
}

/// A canonical residue modulo one of the curve's primes (base or scalar
/// field), kept as its 32-byte big-endian representative.
#[derive(Debug)]
pub struct FieldElement {
    pub be_bytes: Vec<u8>,
}

impl FieldElement {
    /// The representative is exactly 32 bytes.
    pub open spec fn wf(&self) -> bool {
        self.be_bytes@.len() == 32
    }

    /// The zero residue: all 32 bytes are zero.
    pub fn zero() -> (r: FieldElement)
        ensures
            r.wf(),
            r@ == zero_word(),
    {
        FieldElement { be_bytes: zero_bytes32() }
    }
}

impl View for FieldElement {
    type V = Seq<u8>;

    open spec fn view(&self) -> Seq<u8> {
        self.be_bytes@
    }
}

/// The all-zero 32-byte word, used to encode the identity of either curve
/// group.
pub open spec fn zero_word() -> Seq<u8> {
    Seq::new(32, |i: int| 0u8)
}

/// Builds the all-zero 32-byte word.
pub fn zero_bytes32() -> (r: Vec<u8>)
    ensures
        r@ == zero_word(),
{
    let mut v: Vec<u8> = Vec::new();
    let mut i: usize = 0;
    while i < 32
        invariant
            i <= 32,
            v@.len() == i,
            forall|k: int| 0 <= k < i ==> v@[k] == 0u8,
        decreases 32 - i,
    {
        v.push(0u8);
        i = i + 1;
    }
    proof {
        assert(v@ =~= zero_word());
    }
    v
}

/// Copies a byte vector exactly.
pub fn copy_bytes(v: &Vec<u8>) -> (r: Vec<u8>)
    ensures
        r@ == v@,
{
    slice_to_vec(v.as_slice())
}

/// An affine point of the curve's first group, or the group identity
/// (the point at infinity, which has no coordinates).
#[derive(Debug)]
pub enum G1Point {
    Identity,
    Affine { x: FieldElement, y: FieldElement },
}

impl G1Point {
    pub open spec fn wf(&self) -> bool {
        match *self {
            G1Point::Identity => true,
            G1Point::Affine { x, y } => x.wf() && y.wf(),
        }
    }
}

/// An affine point of the curve's second group, whose coordinates live in
/// the quadratic extension of the base field and so carry two components
/// each, or the group identity.
#[derive(Debug)]
pub enum G2Point {
    Identity,
    Affine {
        x_c0: FieldElement,
        x_c1: FieldElement,
        y_c0: FieldElement,
        y_c1: FieldElement,
    },
}

impl G2Point {
    pub open spec fn wf(&self) -> bool {
        match *self {
            G2Point::Identity => true,
            G2Point::Affine { x_c0, x_c1, y_c0, y_c1 } => x_c0.wf() && x_c1.wf() && y_c0.wf()
                && y_c1.wf(),
        }
    }
}

/// Every element of a list of residues is well-formed.
pub open spec fn fes_wf(s: Seq<FieldElement>) -> bool {
    forall|i: int| 0 <= i < s.len() ==> s[i].wf()
}

/// Every element of a list of first-group points is well-formed.
pub open spec fn g1s_wf(s: Seq<G1Point>) -> bool {
    forall|i: int| 0 <= i < s.len() ==> s[i].wf()
}

/// A proof in the current protocol layout, already computed by the proving
/// library; this layer only reads it.
pub struct Proof {
    pub inputs: Vec<FieldElement>,
    pub state_polys_commitments: Vec<G1Point>,
    pub copy_permutation_grand_product_commitment: G1Point,
    pub quotient_poly_parts_commitments: Vec<G1Point>,
    pub state_polys_openings_at_z: Vec<FieldElement>,
    pub state_polys_openings_at_dilations: Vec<FieldElement>,
    pub gate_setup_openings_at_z: Vec<FieldElement>,
    pub gate_selectors_openings_at_z: Vec<FieldElement>,
    pub copy_permutation_polys_openings_at_z: Vec<FieldElement>,
    pub copy_permutation_grand_product_opening_at_z_omega: FieldElement,
    pub quotient_poly_opening_at_z: FieldElement,
    pub linearization_poly_opening_at_z: FieldElement,
    pub opening_proof_at_z: G1Point,
    pub opening_proof_at_z_omega: G1Point,
}

impl Proof {
    pub open spec fn wf(&self) -> bool {
        &&& fes_wf(self.inputs@)
        &&& g1s_wf(self.state_polys_commitments@)
        &&& self.copy_permutation_grand_product_commitment.wf()
        &&& g1s_wf(self.quotient_poly_parts_commitments@)
        &&& fes_wf(self.state_polys_openings_at_z@)
        &&& fes_wf(self.state_polys_openings_at_dilations@)
        &&& fes_wf(self.gate_setup_openings_at_z@)
        &&& fes_wf(self.gate_selectors_openings_at_z@)
        &&& fes_wf(self.copy_permutation_polys_openings_at_z@)
        &&& self.copy_permutation_grand_product_opening_at_z_omega.wf()
        &&& self.quotient_poly_opening_at_z.wf()
        &&& self.linearization_poly_opening_at_z.wf()
        &&& self.opening_proof_at_z.wf()
        &&& self.opening_proof_at_z_omega.wf()
    }
}

/// A proof in the legacy protocol layout.
pub struct OldProof {
    pub input_values: Vec<FieldElement>,
    pub wire_commitments: Vec<G1Point>,
    pub grand_product_commitment: G1Point,
    pub quotient_poly_commitments: Vec<G1Point>,
    pub wire_values_at_z: Vec<FieldElement>,
    pub wire_values_at_z_omega: Vec<FieldElement>,
    pub grand_product_at_z_omega: FieldElement,
    pub quotient_polynomial_at_z: FieldElement,
    pub linearization_polynomial_at_z: FieldElement,
    pub permutation_polynomials_at_z: Vec<FieldElement>,
    pub opening_at_z_proof: G1Point,
    pub opening_at_z_omega_proof: G1Point,
}

impl OldProof {
    pub open spec fn wf(&self) -> bool {
        &&& fes_wf(self.input_values@)
        &&& g1s_wf(self.wire_commitments@)
        &&& self.grand_product_commitment.wf()
        &&& g1s_wf(self.quotient_poly_commitments@)
        &&& fes_wf(self.wire_values_at_z@)
        &&& fes_wf(self.wire_values_at_z_omega@)
        &&& self.grand_product_at_z_omega.wf()
        &&& self.quotient_polynomial_at_z.wf()
        &&& self.linearization_polynomial_at_z.wf()
        &&& fes_wf(self.permutation_polynomials_at_z@)
        &&& self.opening_at_z_proof.wf()
        &&& self.opening_at_z_omega_proof.wf()
    }
}

/// The public parameters a proof is checked against: circuit size, input
/// count, the circuit-structure commitments, the coset shifts of the
/// permutation argument, and the two trusted-setup second-group elements
/// (the generator and the shifted element).
pub struct VerificationKey {
    pub n: u64,
    pub num_inputs: u64,
    pub gate_setup_commitments: Vec<G1Point>,
    pub gate_selectors_commitments: Vec<G1Point>,
    pub permutation_commitments: Vec<G1Point>,
    pub non_residues: Vec<FieldElement>,
    pub g2_elements: Vec<G2Point>,
}

impl VerificationKey {
    pub open spec fn wf(&self) -> bool {
        &&& g1s_wf(self.gate_setup_commitments@)
        &&& g1s_wf(self.gate_selectors_commitments@)
        &&& g1s_wf(self.permutation_commitments@)
        &&& fes_wf(self.non_residues@)
        &&& self.g2_elements@.len() == 2
        &&& (forall|i: int| 0 <= i < self.g2_elements@.len() ==> self.g2_elements@[i].wf())
    }
}

/// One proof attesting to several inner proofs: the inner proof itself, the
/// index of each sub-proof's verification key, each sub-proof's public
/// input, and the 16-limb decomposition of the aggregation challenge.
pub struct AggregatedProof {
    pub proof: Proof,
    pub individual_vk_idxs: Vec<u8>,
    pub individual_vk_inputs: Vec<FieldElement>,
    pub aggr_limbs: Vec<FieldElement>,
}

impl AggregatedProof {
    pub open spec fn wf(&self) -> bool {
        &&& self.proof.wf()
        &&& fes_wf(self.individual_vk_inputs@)
        &&& fes_wf(self.aggr_limbs@)
    }
}

/// The 5-part sequence the verifier contract's aggregation entry point
/// takes, in its exact parameter order.
#[derive(Debug)]
pub struct SerializedAggregatedProof {
    pub inputs: Vec<Uint256>,
    pub proof_words: Vec<Uint256>,
    pub vk_idxs: Vec<u8>,
    pub vk_inputs: Vec<Uint256>,
    pub limbs: Vec<Uint256>,
}

/// A structural-invariant violation: the input object does not follow the
/// aggregation scheme, so serialization aborts instead of emitting a
/// misleading partial result.
#[derive(Clone, Copy, Debug, PartialEq, Eq)]
pub enum SerializationError {
    /// A proof of the current protocol layout carries no gate-setup
    /// openings, yet this one does.
    NonEmptyGateSetupOpenings,
    /// The aggregation challenge must decompose into exactly 16 limbs.
    WrongLimbCount,
    /// The evaluation domain would be larger than the scalar field's
    /// two-adicity admits, so no root of unity generates it.
    UnsupportedDomainSize,
}

} // verus!
