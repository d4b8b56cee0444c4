use plonk_verifier_codegen::{
    serialize_fe, serialize_g1, serialize_g2, serialize_new_proof, serialize_proof,
    AggregatedProof, FieldElement, G1Point, G2Point, OldProof, Proof, SerializationError,
};
use zksync_bellman::pairing::bn256::G1Affine;
use zksync_bellman::pairing::CurveAffine;

fn word_u64(v: u64) -> Vec<u8> {
    let mut bytes = vec![0u8; 32];
    bytes[24..32].copy_from_slice(&v.to_be_bytes());
    bytes
}

fn fe_u64(v: u64) -> FieldElement {
    FieldElement { be_bytes: word_u64(v) }
}

fn g1_u64(x: u64, y: u64) -> G1Point {
    G1Point::Affine { x: fe_u64(x), y: fe_u64(y) }
}

/// A synthetic current-layout proof with the given list sizes, every word
/// distinct.
fn synthetic_proof(k: usize, m: usize, d: usize, s: usize, q: usize) -> Proof {
    let mut counter = 1u64;
    let mut next = || {
        counter += 1;
        counter
    };
    Proof {
        inputs: vec![fe_u64(1)],
        state_polys_commitments: (0..k).map(|_| g1_u64(next(), next())).collect(),
        copy_permutation_grand_product_commitment: g1_u64(next(), next()),
        quotient_poly_parts_commitments: (0..m).map(|_| g1_u64(next(), next())).collect(),
        state_polys_openings_at_z: (0..k).map(|_| fe_u64(next())).collect(),
        state_polys_openings_at_dilations: (0..d).map(|_| fe_u64(next())).collect(),
        gate_setup_openings_at_z: vec![],
        gate_selectors_openings_at_z: (0..s).map(|_| fe_u64(next())).collect(),
        copy_permutation_polys_openings_at_z: (0..q).map(|_| fe_u64(next())).collect(),
        copy_permutation_grand_product_opening_at_z_omega: fe_u64(next()),
        quotient_poly_opening_at_z: fe_u64(next()),
        linearization_poly_opening_at_z: fe_u64(next()),
        opening_proof_at_z: g1_u64(next(), next()),
        opening_proof_at_z_omega: g1_u64(next(), next()),
    }
}

fn synthetic_aggregated(limbs: usize) -> AggregatedProof {
    AggregatedProof {
        proof: synthetic_proof(4, 4, 1, 2, 3),
        individual_vk_idxs: vec![0, 1, 2],
        individual_vk_inputs: vec![fe_u64(11), fe_u64(12), fe_u64(13)],
        aggr_limbs: (0..limbs).map(|i| fe_u64(100 + i as u64)).collect(),
    }
}

#[test]
fn serialize_fe_zero_is_32_zero_bytes() {
    let w = serialize_fe(&FieldElement::zero());
    assert_eq!(w.be_bytes, vec![0u8; 32]);
}

#[test]
fn serialize_fe_keeps_canonical_bytes() {
    let bytes: Vec<u8> = (0u8..32u8).collect();
    let w = serialize_fe(&FieldElement { be_bytes: bytes.clone() });
    assert_eq!(w.be_bytes, bytes);
}

#[test]
fn serialize_g1_identity_is_zero_pair() {
    let (x, y) = serialize_g1(&G1Point::Identity);
    assert_eq!(x.be_bytes, vec![0u8; 32]);
    assert_eq!(y.be_bytes, vec![0u8; 32]);
}

#[test]
fn serialize_g1_generator_matches_curve_library() {
    // The curve's published generator is (1, 2); cross-check against the
    // curve library's own uncompressed big-endian serialization.
    let unc = G1Affine::one().into_uncompressed();
    let bytes = unc.as_ref();
    assert_eq!(&bytes[0..32], word_u64(1).as_slice());
    assert_eq!(&bytes[32..64], word_u64(2).as_slice());
    let p = G1Point::Affine {
        x: FieldElement { be_bytes: bytes[0..32].to_vec() },
        y: FieldElement { be_bytes: bytes[32..64].to_vec() },
    };
    let (x, y) = serialize_g1(&p);
    assert_eq!(x.be_bytes, word_u64(1));
    assert_eq!(y.be_bytes, word_u64(2));
}

#[test]
fn serialize_g2_identity_is_four_zero_words() {
    let ((a, b), (c, d)) = serialize_g2(&G2Point::Identity);
    assert_eq!(a.be_bytes, vec![0u8; 32]);
    assert_eq!(b.be_bytes, vec![0u8; 32]);
    assert_eq!(c.be_bytes, vec![0u8; 32]);
    assert_eq!(d.be_bytes, vec![0u8; 32]);
}

#[test]
fn serialize_g2_inverts_extension_component_order() {
    let p = G2Point::Affine {
        x_c0: fe_u64(1),
        x_c1: fe_u64(2),
        y_c0: fe_u64(3),
        y_c1: fe_u64(4),
    };
    let ((x1, x0), (y1, y0)) = serialize_g2(&p);
    // (x.c1, x.c0, y.c1, y.c0), not (x.c0, x.c1, y.c0, y.c1).
    assert_eq!(x1.be_bytes, word_u64(2));
    assert_eq!(x0.be_bytes, word_u64(1));
    assert_eq!(y1.be_bytes, word_u64(4));
    assert_eq!(y0.be_bytes, word_u64(3));
}

#[test]
fn new_proof_flat_golden_length() {
    // k=4, m=4, d=1, s=2, q=3 gives 2k + 2 + 2m + k + d + s + q + 1 + 1 +
    // 1 + 2 + 2 = 35 words.
    let proof = synthetic_proof(4, 4, 1, 2, 3);
    let (inputs, words) = serialize_new_proof(&proof).unwrap();
    assert_eq!(inputs.len(), 1);
    assert_eq!(words.len(), 35);
    // Order spot checks: the vector opens with the first state
    // commitment's x word and closes with the shifted opening proof's y
    // word (the synthetic proof numbers its words 2 through 36).
    assert_eq!(words[0].be_bytes, word_u64(2));
    assert_eq!(words[34].be_bytes, word_u64(36));
}

#[test]
fn new_proof_rejects_nonempty_gate_setup_openings() {
    let mut proof = synthetic_proof(2, 2, 1, 1, 1);
    proof.gate_setup_openings_at_z = vec![fe_u64(7)];
    assert_eq!(
        serialize_new_proof(&proof).unwrap_err(),
        SerializationError::NonEmptyGateSetupOpenings
    );
}

#[test]
fn legacy_proof_flat_length_and_order() {
    let p = OldProof {
        input_values: vec![fe_u64(1), fe_u64(2)],
        wire_commitments: vec![g1_u64(3, 4), g1_u64(5, 6), g1_u64(7, 8)],
        grand_product_commitment: g1_u64(9, 10),
        quotient_poly_commitments: vec![g1_u64(11, 12), g1_u64(13, 14)],
        wire_values_at_z: vec![fe_u64(15), fe_u64(16), fe_u64(17)],
        wire_values_at_z_omega: vec![fe_u64(18)],
        grand_product_at_z_omega: fe_u64(19),
        quotient_polynomial_at_z: fe_u64(20),
        linearization_polynomial_at_z: fe_u64(21),
        permutation_polynomials_at_z: vec![fe_u64(22), fe_u64(23)],
        opening_at_z_proof: g1_u64(24, 25),
        opening_at_z_omega_proof: g1_u64(26, 27),
    };
    let (inputs, words) = serialize_proof(&p);
    assert_eq!(inputs.len(), 2);
    // 2*3 + 2 + 2*2 + 3 + 1 + 1 + 1 + 1 + 2 + 2 + 2 = 25 words.
    assert_eq!(words.len(), 25);
    assert_eq!(words[0].be_bytes, word_u64(3));
    // The legacy layout puts the permutation openings after the three
    // single scalars, unlike the current layout.
    assert_eq!(words[16].be_bytes, word_u64(19));
    assert_eq!(words[18].be_bytes, word_u64(21));
    assert_eq!(words[19].be_bytes, word_u64(22));
    assert_eq!(words[24].be_bytes, word_u64(27));
}

#[test]
fn aggregated_serialize_needs_exactly_16_limbs() {
    assert_eq!(
        synthetic_aggregated(15).serialize().unwrap_err(),
        SerializationError::WrongLimbCount
    );
    assert_eq!(
        synthetic_aggregated(17).serialize().unwrap_err(),
        SerializationError::WrongLimbCount
    );
    assert!(synthetic_aggregated(16).serialize().is_ok());
}

#[test]
fn aggregated_serialize_five_parts() {
    let aggregated = synthetic_aggregated(16);
    let s = aggregated.serialize().unwrap();
    assert_eq!(s.inputs.len(), 1);
    assert_eq!(s.proof_words.len(), 35);
    assert_eq!(s.vk_idxs, vec![0, 1, 2]);
    assert_eq!(s.vk_inputs.len(), 3);
    assert_eq!(s.vk_inputs[0].be_bytes, word_u64(11));
    assert_eq!(s.limbs.len(), 16);
    assert_eq!(s.limbs[0].be_bytes, word_u64(100));
    assert_eq!(s.limbs[15].be_bytes, word_u64(115));
}

#[test]
fn aggregated_gate_setup_error_precedes_limb_error() {
    let mut aggregated = synthetic_aggregated(15);
    aggregated.proof.gate_setup_openings_at_z = vec![fe_u64(7)];
    assert_eq!(
        aggregated.serialize().unwrap_err(),
        SerializationError::NonEmptyGateSetupOpenings
    );
}

#[test]
fn reserializing_identical_input_is_byte_identical() {
    let aggregated = synthetic_aggregated(16);
    let first = aggregated.serialize().unwrap();
    let second = aggregated.serialize().unwrap();
    let flatten = |s: &plonk_verifier_codegen::SerializedAggregatedProof| {
        let mut all: Vec<Vec<u8>> = Vec::new();
        all.extend(s.inputs.iter().map(|w| w.be_bytes.clone()));
        all.extend(s.proof_words.iter().map(|w| w.be_bytes.clone()));
        all.push(s.vk_idxs.clone());
        all.extend(s.vk_inputs.iter().map(|w| w.be_bytes.clone()));
        all.extend(s.limbs.iter().map(|w| w.be_bytes.clone()));
        all
    };
    assert_eq!(flatten(&first), flatten(&second));
}
