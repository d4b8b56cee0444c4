//! The input bundle for rendering a verifier contract.

use vstd::prelude::*;

use crate::types::{FieldElement, VerificationKey};

verus! {

/// Everything the contract template is rendered from: the aggregation
/// circuit's verification key, the root of the verification-key tree, and
/// the number of inputs each aggregated sub-proof carries.
pub struct Config {
    pub recursive_vk: VerificationKey,
    pub vk_tree_root: FieldElement,
    pub vk_input_num: u64,
}

impl Config {
    pub open spec fn wf(&self) -> bool {
        &&& self.recursive_vk.wf()
        &&& self.vk_tree_root.wf()
    }
}

} // verus!
