use plonk_verifier_codegen::{
    render_scalar_to_hex, rendered_key, template_parameters, Config, FieldElement, G1Point,
    G2Point, SerializationError, VerificationKey,
};
use plonk_verifier_codegen::render_vk::{next_pow2, render_g2_affine_to_hex};
use zksync_bellman::pairing::ff::{PrimeField, PrimeFieldRepr};

fn word_u64(v: u64) -> Vec<u8> {
    let mut bytes = vec![0u8; 32];
    bytes[24..32].copy_from_slice(&v.to_be_bytes());
    bytes
}

fn fe_u64(v: u64) -> FieldElement {
    FieldElement { be_bytes: word_u64(v) }
}

fn g1_u64(x: u64, y: u64) -> G1Point {
    G1Point::Affine { x: fe_u64(x), y: fe_u64(y) }
}

fn hex_u64(v: u64) -> String {
    format!("0x{}", hex::encode(word_u64(v)))
}

fn synthetic_vk(n: u64) -> VerificationKey {
    VerificationKey {
        n,
        num_inputs: 2,
        gate_setup_commitments: vec![g1_u64(1, 2), g1_u64(3, 4)],
        gate_selectors_commitments: vec![g1_u64(5, 6)],
        permutation_commitments: vec![g1_u64(7, 8)],
        non_residues: vec![fe_u64(9), fe_u64(10)],
        g2_elements: vec![
            G2Point::Affine {
                x_c0: fe_u64(21),
                x_c1: fe_u64(22),
                y_c0: fe_u64(23),
                y_c1: fe_u64(24),
            },
            G2Point::Affine {
                x_c0: fe_u64(31),
                x_c1: fe_u64(32),
                y_c0: fe_u64(33),
                y_c1: fe_u64(34),
            },
        ],
    }
}

fn lookup<'a>(pairs: &'a [(String, String)], key: &str) -> &'a str {
    &pairs
        .iter()
        .find(|(k, _)| k == key)
        .unwrap_or_else(|| panic!("missing key {key}"))
        .1
}

#[test]
fn render_scalar_is_fixed_width_lowercase_hex() {
    let bytes: Vec<u8> = (0u8..32u8).collect();
    let rendered = render_scalar_to_hex(&FieldElement { be_bytes: bytes });
    assert_eq!(
        rendered,
        "0x000102030405060708090a0b0c0d0e0f101112131415161718191a1b1c1d1e1f"
    );
    assert_eq!(
        render_scalar_to_hex(&FieldElement::zero()),
        format!("0x{}", "0".repeat(64))
    );
}

#[test]
fn next_pow2_rounds_up() {
    assert_eq!(next_pow2(0), 1);
    assert_eq!(next_pow2(1), 1);
    assert_eq!(next_pow2(2), 2);
    assert_eq!(next_pow2(3), 4);
    assert_eq!(next_pow2(1000), 1024);
    assert_eq!(next_pow2(1024), 1024);
}

#[test]
fn domain_size_of_n_1000_is_1024() {
    let pairs = rendered_key(&synthetic_vk(1000)).unwrap();
    assert_eq!(lookup(&pairs, "domain_size"), "1024");
    assert_eq!(lookup(&pairs, "num_inputs"), "2");
}

#[test]
fn omega_matches_curve_library_domain_generator() {
    let pairs = rendered_key(&synthetic_vk(1000)).unwrap();
    let domain = zksync_bellman::plonk::domains::Domain::<
        zksync_bellman::pairing::bn256::Fr,
    >::new_for_size(1024)
    .unwrap();
    let mut buf: Vec<u8> = Vec::new();
    domain.generator.into_repr().write_be(&mut buf).unwrap();
    assert_eq!(lookup(&pairs, "omega"), format!("0x{}", hex::encode(&buf)));
}

#[test]
fn commitments_render_under_indexed_names() {
    let pairs = rendered_key(&synthetic_vk(1000)).unwrap();
    assert_eq!(lookup(&pairs, "gate_setup_commitment_0_0"), hex_u64(1));
    assert_eq!(lookup(&pairs, "gate_setup_commitment_0_1"), hex_u64(2));
    assert_eq!(lookup(&pairs, "gate_setup_commitment_1_0"), hex_u64(3));
    assert_eq!(lookup(&pairs, "gate_setup_commitment_1_1"), hex_u64(4));
    assert_eq!(lookup(&pairs, "gate_selector_commitment_0_0"), hex_u64(5));
    assert_eq!(lookup(&pairs, "gate_selector_commitment_0_1"), hex_u64(6));
    assert_eq!(lookup(&pairs, "permutation_commitment_0_0"), hex_u64(7));
    assert_eq!(lookup(&pairs, "permutation_commitment_0_1"), hex_u64(8));
    assert_eq!(lookup(&pairs, "permutation_non_residue_0"), hex_u64(9));
    assert_eq!(lookup(&pairs, "permutation_non_residue_1"), hex_u64(10));
}

#[test]
fn second_g2_element_renders_component_wise() {
    // The rendered names carry the component order c0 before c1, and only
    // the second trusted-setup element (index 1) is rendered.
    let pairs = rendered_key(&synthetic_vk(1000)).unwrap();
    assert_eq!(lookup(&pairs, "g2_x_x_c0"), hex_u64(31));
    assert_eq!(lookup(&pairs, "g2_x_x_c1"), hex_u64(32));
    assert_eq!(lookup(&pairs, "g2_x_y_c0"), hex_u64(33));
    assert_eq!(lookup(&pairs, "g2_x_y_c1"), hex_u64(34));
}

#[test]
fn g2_hex_rendering_keeps_component_order() {
    let p = G2Point::Affine {
        x_c0: fe_u64(1),
        x_c1: fe_u64(2),
        y_c0: fe_u64(3),
        y_c1: fe_u64(4),
    };
    let (xc0, xc1, yc0, yc1) = render_g2_affine_to_hex(&p);
    assert_eq!(xc0, hex_u64(1));
    assert_eq!(xc1, hex_u64(2));
    assert_eq!(yc0, hex_u64(3));
    assert_eq!(yc1, hex_u64(4));
}

#[test]
fn oversized_domain_is_rejected() {
    let vk = synthetic_vk(0x1000_0001);
    assert_eq!(
        rendered_key(&vk).unwrap_err(),
        SerializationError::UnsupportedDomainSize
    );
    assert!(rendered_key(&synthetic_vk(0x1000_0000)).is_ok());
}

#[test]
fn template_parameters_add_the_tree_root() {
    let config = Config {
        recursive_vk: synthetic_vk(1000),
        vk_tree_root: fe_u64(77),
        vk_input_num: 1,
    };
    let pairs = template_parameters(&config).unwrap();
    assert_eq!(lookup(&pairs, "vk_tree_root"), hex_u64(77));
    assert_eq!(lookup(&pairs, "domain_size"), "1024");
    // Every key is present exactly once.
    for (key, _) in pairs.iter() {
        assert_eq!(pairs.iter().filter(|(k, _)| k == key).count(), 1, "{key}");
    }
}

#[test]
fn rendering_twice_is_identical() {
    let vk = synthetic_vk(1000);
    assert_eq!(rendered_key(&vk).unwrap(), rendered_key(&vk).unwrap());
}
