//! Hashing layer for authenticated trees and short-Weierstrass curves:
//! a seeded rejection-sampling hash-to-group map and interchangeable
//! digest backends for tree nodes and leaves.

mod errors;
mod hash_to_group;
mod merkle_tree;
mod rescue_hash;
mod sha3_digest;

pub use errors::PrimitivesError;
pub use hash_to_group::{
    candidate, chacha_bool_of, fq377_draw_of, fq381_draw_of, g1_377_clear_cofactor,
    g1_377_from_x, g1_381_clear_cofactor, g1_381_from_x, hash_to_group_seed,
    lemma_hash_to_group_input_determines, lemma_seed_input_context_sensitive, rounds_history, sample_from, sha256_of,
    spec_hash_to_group, Bls12377Fq, Bls12377G1Affine, Bls12377G1AffinePoint, Bls12377G1Point,
    Bls12377G1Projective, Bls12381Fq, Bls12381G1Affine, Bls12381G1AffinePoint, Bls12381G1Point,
    Bls12381G1Projective, SWCurveSampling, SWHashToGroup, SeededRng, DRAW_BOOL, DRAW_FQ_377, DRAW_FQ_381,
    MAX_ATTEMPTS,
};
pub use merkle_tree::{DigestAlgorithm, Element, Index, NodeValue, ARITY};
pub use rescue_hash::{
    interval_leaf_input, leaf_input, lemma_children_order_sensitive,
    lemma_interval_leaf_input_element_sensitive, lemma_interval_leaf_input_position_sensitive, lemma_leaf_digest_is_padded_node_digest,
    lemma_leaf_input_element_sensitive, lemma_leaf_input_position_sensitive, spec_digest,
    spec_digest_interval_leaf, spec_digest_leaf, Interval, RescueHash, RescueParameter,
};
pub use sha3_digest::{
    concat_nodes, lemma_children_bytes_order_sensitive, lemma_concat_three, node_bytes,
    sha3_256_of, Sha3Digest, Sha3Node,
};
