//! Extraction of the named template values from a verification key: domain
//! parameters as decimal strings, commitments and constants as hex strings.
//!
//! The template looks values up by exact name, so only the set of pairs
//! matters; the rendering order below is nevertheless fixed, key group by
//! key group, and pinned by [`rendered_key_pairs`].

use vstd::arithmetic::power2::{lemma2_to64, lemma2_to64_rest, lemma_pow2_pos, lemma_pow2_unfold, pow2};
use vstd::prelude::*;
use vstd::string::StringExecFns;

use zksync_bellman::pairing::ff::{PrimeField, PrimeFieldRepr};

use crate::config::Config;
use crate::primitives::{g1_words, g2_words, serialize_g1, serialize_g2};
use crate::text::{dec_render, dec_string, hex_render, hex_string};
use crate::types::{FieldElement, G1Point, G2Point, SerializationError, VerificationKey};

verus! {

/// The smallest power of two that is at least `n` (and at least 1).
pub open spec fn next_pow2_spec(n: nat) -> nat
    decreases n,
{
    if n <= 1 {
        1
    } else {
        2 * next_pow2_spec((n + 1) / 2)
    }
}

/// Rounding up to a power of two never leaves a power-of-two bound.
proof fn lemma_next_pow2_le_pow2(n: nat, k: nat)
    requires
        n <= pow2(k),
    ensures
        next_pow2_spec(n) <= pow2(k),
    decreases n,
{
    lemma_pow2_pos(k);
    if n > 1 {
        if k == 0 {
            lemma2_to64();
        } else {
            lemma_pow2_unfold(k);
            lemma_next_pow2_le_pow2((n + 1) / 2, (k - 1) as nat);
        }
    }
}

/// Computes the smallest power of two that is at least `n`.
pub fn next_pow2(n: u64) -> (r: u64)
    requires
        n <= 0x8000_0000_0000_0000,
    ensures
        r as nat == next_pow2_spec(n as nat),
    decreases n,
{
    if n <= 1 {
        1
    } else {
        let h = (n + 1) / 2;
        proof {
            lemma2_to64_rest();
            lemma_next_pow2_le_pow2(h as nat, 62);
        }
        let r2 = next_pow2(h);
        2 * r2
    }
}

/// The evaluation-domain size of a key with circuit size `n`.
pub open spec fn spec_domain_size(n: u64) -> nat {
    next_pow2_spec(n as nat)
}

/// The canonical 32-byte big-endian form of the root of unity that
/// generates the scalar field's multiplicative subgroup of the given
/// (power-of-two) order.
pub uninterp spec fn domain_generator_of(size: u64) -> Seq<u8>;

/// Relies on bellman's `Domain::new_for_size` over the curve's scalar
/// field: it rounds the size up to a power of two, fails exactly when that
/// power exceeds the field's two-adicity of 28, and otherwise derives the
/// subgroup generator from the field's constants alone, here written out
/// in its canonical 32-byte big-endian form.
#[verifier::external_body]
fn domain_generator_be(size: u64) -> (r: Option<Vec<u8>>)
    requires
        size <= 0x8000_0000_0000_0000,
    ensures
        (r is Some) <==> size <= 0x1000_0000,
        (match r {
            Some(v) => v@ == domain_generator_of(size) && v@.len() == 32,
            None => true,
        }),
{
    match zksync_bellman::plonk::domains::Domain::<
        zksync_bellman::pairing::bn256::Fr,
    >::new_for_size(size) {
        Ok(domain) => {
            let mut buf: Vec<u8> = Vec::new();
            domain.generator.into_repr().write_be(&mut buf).expect("writing to a vector");
            Some(buf)
        },
        Err(_) => None,
    }
}

/// The key-value pairs of a pair list, as character sequences.
pub open spec fn pairs_view(s: Seq<(String, String)>) -> Seq<(Seq<char>, Seq<char>)> {
    s.map_values(|p: (String, String)| (p.0@, p.1@))
}

/// A name carrying one index, such as `permutation_non_residue_3`.
pub open spec fn indexed_key(prefix: Seq<char>, i: nat) -> Seq<char> {
    prefix + dec_render(i)
}

/// A name carrying an element index and a coordinate index, such as
/// `gate_setup_commitment_2_0`.
pub open spec fn coord_key(prefix: Seq<char>, i: nat, j: nat) -> Seq<char> {
    prefix + dec_render(i) + "_"@ + dec_render(j)
}

/// The two pairs one commitment contributes: its `x` word under coordinate
/// index 0 and its `y` word under coordinate index 1.
pub open spec fn point_pairs(prefix: Seq<char>, i: nat, p: G1Point) -> Seq<(Seq<char>, Seq<char>)> {
    seq![
        (coord_key(prefix, i, 0), hex_render(g1_words(p)[0])),
        (coord_key(prefix, i, 1), hex_render(g1_words(p)[1])),
    ]
}

/// The pairs of a whole commitment list, element by element.
pub open spec fn g1_commitment_pairs(prefix: Seq<char>, s: Seq<G1Point>) -> Seq<
    (Seq<char>, Seq<char>),
>
    decreases s.len(),
{
    if s.len() == 0 {
        Seq::empty()
    } else {
        g1_commitment_pairs(prefix, s.drop_last()) + point_pairs(
            prefix,
            (s.len() - 1) as nat,
            s.last(),
        )
    }
}

/// The pairs of the non-residue list, one hex value per coset shift.
pub open spec fn non_residue_pairs(s: Seq<FieldElement>) -> Seq<(Seq<char>, Seq<char>)>
    decreases s.len(),
{
    if s.len() == 0 {
        Seq::empty()
    } else {
        non_residue_pairs(s.drop_last()) + seq![
            (
                indexed_key("permutation_non_residue_"@, (s.len() - 1) as nat),
                hex_render(s.last()@),
            ),
        ]
    }
}

/// The four pairs of the rendered trusted-setup element: each extension
/// component under its own name, first component first.
pub open spec fn g2_element_pairs(p: G2Point) -> Seq<(Seq<char>, Seq<char>)> {
    seq![
        ("g2_x_x_c0"@, hex_render(g2_words(p)[1])),
        ("g2_x_x_c1"@, hex_render(g2_words(p)[0])),
        ("g2_x_y_c0"@, hex_render(g2_words(p)[3])),
        ("g2_x_y_c1"@, hex_render(g2_words(p)[2])),
    ]
}

/// Every named value a verification key is rendered to: the domain
/// parameters, the three commitment lists, the non-residues, and the
/// second trusted-setup element (the first is the group generator and is
/// not rendered).
pub open spec fn rendered_key_pairs(vk: VerificationKey) -> Seq<(Seq<char>, Seq<char>)> {
    seq![
        ("domain_size"@, dec_render(spec_domain_size(vk.n))),
        ("num_inputs"@, dec_render(vk.num_inputs as nat)),
        ("omega"@, hex_render(domain_generator_of(spec_domain_size(vk.n) as u64))),
    ] + g1_commitment_pairs("gate_setup_commitment_"@, vk.gate_setup_commitments@)
        + g1_commitment_pairs("gate_selector_commitment_"@, vk.gate_selectors_commitments@)
        + g1_commitment_pairs("permutation_commitment_"@, vk.permutation_commitments@)
        + non_residue_pairs(vk.non_residues@) + g2_element_pairs(vk.g2_elements@[1])
}

/// Renders a commitment as its two `0x`-prefixed hex words, `x` then `y`.
pub fn render_g1_affine_to_hex(point: &G1Point) -> (r: (String, String))
    ensures
        r.0@ == hex_render(g1_words(*point)[0]),
        r.1@ == hex_render(g1_words(*point)[1]),
{
    let (x, y) = serialize_g1(point);
    (hex_string(&x.be_bytes), hex_string(&y.be_bytes))
}

/// Renders a second-group point as four hex words in component order:
/// `x.c0`, `x.c1`, `y.c0`, `y.c1`.
pub fn render_g2_affine_to_hex(point: &G2Point) -> (r: (String, String, String, String))
    ensures
        r.0@ == hex_render(g2_words(*point)[1]),
        r.1@ == hex_render(g2_words(*point)[0]),
        r.2@ == hex_render(g2_words(*point)[3]),
        r.3@ == hex_render(g2_words(*point)[2]),
{
    let ((x1, x0), (y1, y0)) = serialize_g2(point);
    (
        hex_string(&x0.be_bytes),
        hex_string(&x1.be_bytes),
        hex_string(&y0.be_bytes),
        hex_string(&y1.be_bytes),
    )
}

/// Builds a one-index name.
fn indexed_key_string(prefix: &str, i: u64) -> (r: String)
    ensures
        r@ == indexed_key(prefix@, i as nat),
{
    let mut s = String::from_str(prefix);
    let di = dec_string(i);
    s.append(di.as_str());
    s
}

/// Builds an element-and-coordinate name.
fn coord_key_string(prefix: &str, i: u64, j: u64) -> (r: String)
    ensures
        r@ == coord_key(prefix@, i as nat, j as nat),
{
    let mut s = String::from_str(prefix);
    let di = dec_string(i);
    s.append(di.as_str());
    s.append("_");
    let dj = dec_string(j);
    s.append(dj.as_str());
    s
}

proof fn lemma_g1_pairs_take_step(prefix: Seq<char>, s: Seq<G1Point>, i: int)
    requires
        0 <= i < s.len(),
    ensures
        g1_commitment_pairs(prefix, s.take(i + 1)) == g1_commitment_pairs(prefix, s.take(i))
            + point_pairs(prefix, i as nat, s[i]),
{
    assert(s.take(i + 1).drop_last() =~= s.take(i));
    assert(s.take(i + 1).last() == s[i]);
}

proof fn lemma_non_residue_take_step(s: Seq<FieldElement>, i: int)
    requires
        0 <= i < s.len(),
    ensures
        non_residue_pairs(s.take(i + 1)) == non_residue_pairs(s.take(i)) + seq![
            (indexed_key("permutation_non_residue_"@, i as nat), hex_render(s[i]@)),
        ],
{
    assert(s.take(i + 1).drop_last() =~= s.take(i));
    assert(s.take(i + 1).last() == s[i]);
}

/// Appends the two pairs of every commitment of a list.
fn push_g1_pairs(out: &mut Vec<(String, String)>, prefix: &str, list: &Vec<G1Point>)
    ensures
        pairs_view(final(out)@) == pairs_view(old(out)@) + g1_commitment_pairs(prefix@, list@),
{
    let mut i: usize = 0;
    while i < list.len()
        invariant
            i <= list@.len(),
            pairs_view(out@) == pairs_view(old(out)@) + g1_commitment_pairs(
                prefix@,
                list@.take(i as int),
            ),
        decreases list@.len() - i,
    {
        let ghost prev = out@;
        let (h0, h1) = render_g1_affine_to_hex(&list[i]);
        let key0 = coord_key_string(prefix, i as u64, 0);
        let key1 = coord_key_string(prefix, i as u64, 1);
        out.push((key0, h0));
        out.push((key1, h1));
        proof {
            lemma_g1_pairs_take_step(prefix@, list@, i as int);
            assert(pairs_view(out@) =~= pairs_view(prev) + point_pairs(
                prefix@,
                i as nat,
                list@[i as int],
            ));
            assert(pairs_view(out@) =~= pairs_view(old(out)@) + g1_commitment_pairs(
                prefix@,
                list@.take(i as int + 1),
            ));
        }
        i = i + 1;
    }
    proof {
        assert(list@.take(list@.len() as int) =~= list@);
    }
}

/// Appends one pair per non-residue.
fn push_non_residue_pairs(out: &mut Vec<(String, String)>, list: &Vec<FieldElement>)
    ensures
        pairs_view(final(out)@) == pairs_view(old(out)@) + non_residue_pairs(list@),
{
    let mut i: usize = 0;
    while i < list.len()
        invariant
            i <= list@.len(),
            pairs_view(out@) == pairs_view(old(out)@) + non_residue_pairs(list@.take(i as int)),
        decreases list@.len() - i,
    {
        let ghost prev = out@;
        let key = indexed_key_string("permutation_non_residue_", i as u64);
        let value = hex_string(&list[i].be_bytes);
        out.push((key, value));
        proof {
            lemma_non_residue_take_step(list@, i as int);
            assert(pairs_view(out@) =~= pairs_view(prev) + seq![
                (
                    indexed_key("permutation_non_residue_"@, i as nat),
                    hex_render(list@[i as int]@),
                ),
            ]);
            assert(pairs_view(out@) =~= pairs_view(old(out)@) + non_residue_pairs(
                list@.take(i as int + 1),
            ));
        }
        i = i + 1;
    }
    proof {
        assert(list@.take(list@.len() as int) =~= list@);
    }
}

/// Appends the four pairs of the rendered trusted-setup element.
fn push_g2_element_pairs(out: &mut Vec<(String, String)>, p: &G2Point)
    ensures
        pairs_view(final(out)@) == pairs_view(old(out)@) + g2_element_pairs(*p),
{
    let (c0x, c1x, c0y, c1y) = render_g2_affine_to_hex(p);
    out.push((String::from_str("g2_x_x_c0"), c0x));
    out.push((String::from_str("g2_x_x_c1"), c1x));
    out.push((String::from_str("g2_x_y_c0"), c0y));
    out.push((String::from_str("g2_x_y_c1"), c1y));
    proof {
        assert(pairs_view(out@) =~= pairs_view(old(out)@) + g2_element_pairs(*p));
    }
}

/// Renders every named value of a verification key. Fails exactly when the
/// circuit size calls for an evaluation domain larger than the scalar
/// field's two-adicity admits.
pub fn rendered_key(recursive_vk: &VerificationKey) -> (r: Result<
    Vec<(String, String)>,
    SerializationError,
>)
    requires
        recursive_vk.wf(),
        recursive_vk.n <= 0x8000_0000_0000_0000,
    ensures
        match r {
            Ok(pairs) => {
                &&& recursive_vk.n <= 0x1000_0000
                &&& pairs_view(pairs@) == rendered_key_pairs(*recursive_vk)
            },
            Err(e) => {
                &&& recursive_vk.n > 0x1000_0000
                &&& e == SerializationError::UnsupportedDomainSize
            },
        },
{
    if recursive_vk.n > 0x1000_0000 {
        return Err(SerializationError::UnsupportedDomainSize);
    }
    let size = next_pow2(recursive_vk.n);
    proof {
        lemma2_to64();
        lemma_next_pow2_le_pow2(recursive_vk.n as nat, 28);
    }
    let omega_bytes = match domain_generator_be(size) {
        Some(b) => b,
        None => {
            return Err(SerializationError::UnsupportedDomainSize);
        },
    };
    let mut pairs: Vec<(String, String)> = Vec::new();
    pairs.push((String::from_str("domain_size"), dec_string(size)));
    pairs.push((String::from_str("num_inputs"), dec_string(recursive_vk.num_inputs)));
    pairs.push((String::from_str("omega"), hex_string(&omega_bytes)));
    proof {
        assert(pairs_view(pairs@) =~= seq![
            ("domain_size"@, dec_render(spec_domain_size(recursive_vk.n))),
            ("num_inputs"@, dec_render(recursive_vk.num_inputs as nat)),
            (
                "omega"@,
                hex_render(domain_generator_of(spec_domain_size(recursive_vk.n) as u64)),
            ),
        ]);
    }
    push_g1_pairs(&mut pairs, "gate_setup_commitment_", &recursive_vk.gate_setup_commitments);
    push_g1_pairs(&mut pairs, "gate_selector_commitment_", &recursive_vk.gate_selectors_commitments);
    push_g1_pairs(&mut pairs, "permutation_commitment_", &recursive_vk.permutation_commitments);
    push_non_residue_pairs(&mut pairs, &recursive_vk.non_residues);
    push_g2_element_pairs(&mut pairs, &recursive_vk.g2_elements[1]);
    proof {
        assert(pairs_view(pairs@) =~= rendered_key_pairs(*recursive_vk));
    }
    Ok(pairs)
}

/// Every named value the contract template is rendered with: the tree
/// root, then everything the verification key provides.
pub open spec fn template_parameter_pairs(c: Config) -> Seq<(Seq<char>, Seq<char>)> {
    seq![("vk_tree_root"@, hex_render(c.vk_tree_root@))] + rendered_key_pairs(c.recursive_vk)
}

/// Computes the full name-to-value mapping for the contract template.
/// Every key the template looks up is present exactly once.
pub fn template_parameters(config: &Config) -> (r: Result<
    Vec<(String, String)>,
    SerializationError,
>)
    requires
        config.wf(),
        config.recursive_vk.n <= 0x8000_0000_0000_0000,
    ensures
        match r {
            Ok(pairs) => {
                &&& config.recursive_vk.n <= 0x1000_0000
                &&& pairs_view(pairs@) == template_parameter_pairs(*config)
            },
            Err(e) => {
                &&& config.recursive_vk.n > 0x1000_0000
                &&& e == SerializationError::UnsupportedDomainSize
            },
        },
{
    let mut pairs: Vec<(String, String)> = Vec::new();
    pairs.push((String::from_str("vk_tree_root"), hex_string(&config.vk_tree_root.be_bytes)));
    let mut rest = match rendered_key(&config.recursive_vk) {
        Ok(p) => p,
        Err(e) => {
            return Err(e);
        },
    };
    let ghost first = pairs@;
    let ghost tail = rest@;
    pairs.append(&mut rest);
    proof {
        assert(pairs_view(first) =~= seq![("vk_tree_root"@, hex_render(config.vk_tree_root@))]);
        assert(pairs_view(pairs@) =~= pairs_view(first) + pairs_view(tail));
        assert(pairs_view(pairs@) =~= template_parameter_pairs(*config));
    }
    Ok(pairs)
}

} // verus!
