//! The element-level encoders: scalar, first-group point and second-group
//! point, each to fixed 32-byte big-endian words.

use vstd::prelude::*;

use crate::text::{hex_render, hex_string, lemma_hex_render_injective};
use crate::types::{copy_bytes, zero_bytes32, zero_word, FieldElement, G1Point, G2Point, Uint256};

verus! {

/// The one word a scalar encodes to: its canonical representative.
pub open spec fn fe_word(fe: FieldElement) -> Seq<u8> {
    fe@
}

/// The two words a first-group point encodes to: `x` then `y`, or two zero
/// words for the identity.
pub open spec fn g1_words(p: G1Point) -> Seq<Seq<u8>> {
    match p {
        G1Point::Identity => seq![zero_word(), zero_word()],
        G1Point::Affine { x, y } => seq![x@, y@],
    }
}

/// The four words a second-group point encodes to. The extension field's
/// second component precedes the first — `(x.c1, x.c0, y.c1, y.c0)` — as in
/// the curve's native big-endian serialization; the identity is four zero
/// words.
pub open spec fn g2_words(p: G2Point) -> Seq<Seq<u8>> {
    match p {
        G2Point::Identity => seq![zero_word(), zero_word(), zero_word(), zero_word()],
        G2Point::Affine { x_c0, x_c1, y_c0, y_c1 } => seq![x_c1@, x_c0@, y_c1@, y_c0@],
    }
}

/// Encodes a scalar as one 32-byte big-endian word. The input is already a
/// canonical residue, so no reduction happens; encoding is total.
pub fn serialize_fe(field_element: &FieldElement) -> (r: Uint256)
    ensures
        r@ == fe_word(*field_element),
{
    Uint256 { be_bytes: copy_bytes(&field_element.be_bytes) }
}

/// Encodes a first-group point as its two words, `x` before `y`; the
/// identity encodes as `(0, 0)`.
pub fn serialize_g1(point: &G1Point) -> (r: (Uint256, Uint256))
    ensures
        r.0@ == g1_words(*point)[0],
        r.1@ == g1_words(*point)[1],
{
    match point {
        G1Point::Identity => (
            Uint256 { be_bytes: zero_bytes32() },
            Uint256 { be_bytes: zero_bytes32() },
        ),
        G1Point::Affine { x, y } => (
            Uint256 { be_bytes: copy_bytes(&x.be_bytes) },
            Uint256 { be_bytes: copy_bytes(&y.be_bytes) },
        ),
    }
}

/// Encodes a second-group point as `((x.c1, x.c0), (y.c1, y.c0))` — the
/// extension components in inverted order — or four zero words for the
/// identity.
pub fn serialize_g2(point: &G2Point) -> (r: ((Uint256, Uint256), (Uint256, Uint256)))
    ensures
        r.0.0@ == g2_words(*point)[0],
        r.0.1@ == g2_words(*point)[1],
        r.1.0@ == g2_words(*point)[2],
        r.1.1@ == g2_words(*point)[3],
{
    match point {
        G2Point::Identity => (
            (Uint256 { be_bytes: zero_bytes32() }, Uint256 { be_bytes: zero_bytes32() }),
            (Uint256 { be_bytes: zero_bytes32() }, Uint256 { be_bytes: zero_bytes32() }),
        ),
        G2Point::Affine { x_c0, x_c1, y_c0, y_c1 } => (
            (
                Uint256 { be_bytes: copy_bytes(&x_c1.be_bytes) },
                Uint256 { be_bytes: copy_bytes(&x_c0.be_bytes) },
            ),
            (
                Uint256 { be_bytes: copy_bytes(&y_c1.be_bytes) },
                Uint256 { be_bytes: copy_bytes(&y_c0.be_bytes) },
            ),
        ),
    }
}

/// Renders a scalar as a `0x`-prefixed, 64-digit lowercase hex string.
pub fn render_scalar_to_hex(el: &FieldElement) -> (r: String)
    ensures
        r@ == hex_render(fe_word(*el)),
{
    hex_string(&el.be_bytes)
}

/// Law: the scalar encoding is injective — scalars that encode to the same
/// word are the same canonical residue.
pub proof fn lemma_fe_encoding_injective(a: FieldElement, b: FieldElement)
    requires
        fe_word(a) == fe_word(b),
    ensures
        a@ == b@,
{
}

/// Law: the hex rendering of a scalar is injective — well-formed scalars
/// with the same rendered string are the same canonical residue.
pub proof fn lemma_scalar_hex_injective(a: FieldElement, b: FieldElement)
    requires
        a.wf(),
        b.wf(),
        hex_render(fe_word(a)) == hex_render(fe_word(b)),
    ensures
        a@ == b@,
{
    lemma_hex_render_injective(a@, b@);
}

} // verus!
