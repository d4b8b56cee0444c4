//! Serialization of PLONK proofs and verification keys into the fixed-width
//! big-endian word layout that an EVM verifier contract consumes.
//!
//! The library converts already-computed algebraic objects — scalar field
//! elements and affine curve points, packaged into proof and
//! verification-key structures — into ordered 32-byte-word vectors and into
//! the named hex/decimal strings a contract template is rendered with.
//! Reading templates, rendering them and writing files are left to callers.

pub mod config;
pub mod primitives;
pub mod render_vk;
pub mod serialization;
pub mod text;
pub mod types;

pub use config::Config;
pub use primitives::{render_scalar_to_hex, serialize_fe, serialize_g1, serialize_g2};
pub use render_vk::{rendered_key, template_parameters};
pub use serialization::{serialize_new_proof, serialize_proof};
pub use types::{
    AggregatedProof, FieldElement, G1Point, G2Point, OldProof, Proof, SerializationError,
    SerializedAggregatedProof, Uint256, VerificationKey,
};
