use vstd::prelude::*;

use crate::errors::PrimitivesError;

verus! {

/// A value that can be stored at a leaf of an authenticated tree.
pub trait Element {}

/// A key that identifies the position of a leaf.
pub trait Index {}

/// A node hash of an authenticated tree.
pub trait NodeValue {}

impl Index for u64 {}

/// The number of children of every internal node.
pub const ARITY: usize = 3;

/// The hashing strategy of an authenticated tree: how the hashes of the
/// children of an internal node are compressed into the parent's hash, and
/// how a leaf's position and element are turned into a leaf hash.
pub trait DigestAlgorithm<E, I, T> {
    /// Whether `r` is the hash of an internal node with children `data`.
    spec fn is_node_digest(data: Seq<T>, r: T) -> bool;

    /// Whether `r` is what hashing the leaf `elem` at `pos` gives.
    spec fn is_leaf_digest(pos: I, elem: E, r: Result<T, PrimitivesError>) -> bool;

    /// Compresses the hashes of the children of one internal node.
    fn digest(data: &[T]) -> (r: T)
        requires
            data@.len() == ARITY,
        ensures
            Self::is_node_digest(data@, r),
    ;

    /// Hashes a leaf from its position and its element.
    fn digest_leaf(pos: &I, elem: &E) -> (r: Result<T, PrimitivesError>)
        ensures
            Self::is_leaf_digest(*pos, *elem, r),
    ;
}

} // verus!
