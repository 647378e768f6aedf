use vstd::prelude::*;

use core::marker::PhantomData;

use crate::errors::PrimitivesError;
use crate::merkle_tree::{DigestAlgorithm, Element, ARITY};

verus! {

/// A field over which the Rescue permutation is available as a sponge of
/// rate three. The field and its permutation are supplied by the user of
/// this library; the spec functions name what they compute.
pub trait RescueParameter: Sized + Copy {
    /// The field element that encodes the integer `v`.
    spec fn spec_from_u64(v: u64) -> Self;

    /// The additive identity of the field.
    spec fn spec_zero() -> Self;

    /// The first output element of the sponge, absorbing `input` with no
    /// padding.
    spec fn spec_sponge(input: Seq<Self>) -> Self;

    fn from_u64(v: u64) -> (r: Self)
        ensures
            r == Self::spec_from_u64(v),
    ;

    fn zero() -> (r: Self)
        ensures
            r == Self::spec_zero(),
    ;

    fn sponge_no_padding(input: &[Self]) -> (r: Self)
        requires
            input@.len() > 0,
            input@.len() % 3 == 0,
        ensures
            r == Self::spec_sponge(input@),
    ;

    /// Distinct integers have distinct encodings: the field has more than
    /// 2^64 elements.
    proof fn lemma_from_u64_injective(a: u64, b: u64)
        ensures
            Self::spec_from_u64(a) == Self::spec_from_u64(b) ==> a == b,
    ;
}

/// The element of an interval tree: a low and a high field value.
#[derive(Clone, Copy, PartialEq, Eq)]
pub struct Interval<F>(pub F, pub F);

impl<F> Element for Interval<F> {}

/// The sponge backend: internal nodes and leaves are hashed with the Rescue
/// sponge over `F`.
pub struct RescueHash<F> {
    phantom_f: PhantomData<F>,
}

/// The parent hash of the given children.
pub open spec fn spec_digest<F: RescueParameter>(data: Seq<F>) -> F {
    F::spec_sponge(data)
}

/// What the sponge absorbs for a leaf holding `elem` at `pos`.
pub open spec fn leaf_input<F: RescueParameter>(pos: u64, elem: F) -> Seq<F> {
    seq![F::spec_from_u64(pos), elem, F::spec_zero()]
}

/// What the sponge absorbs for an interval leaf at `pos`.
pub open spec fn interval_leaf_input<F: RescueParameter>(pos: u64, elem: Interval<F>) -> Seq<F> {
    seq![F::spec_from_u64(pos), elem.0, elem.1]
}

/// The hash of a leaf holding `elem` at `pos`.
pub open spec fn spec_digest_leaf<F: RescueParameter>(pos: u64, elem: F) -> F {
    F::spec_sponge(leaf_input(pos, elem))
}

/// The hash of an interval leaf at `pos`.
pub open spec fn spec_digest_interval_leaf<F: RescueParameter>(pos: u64, elem: Interval<F>) -> F {
    F::spec_sponge(interval_leaf_input(pos, elem))
}

impl<F: RescueParameter> RescueHash<F> {
    /// Compresses three children into their parent's hash.
    pub fn digest(data: &[F]) -> (r: F)
        requires
            data@.len() == ARITY,
        ensures
            r == spec_digest(data@),
    {
        F::sponge_no_padding(data)
    }

    /// Hashes the position and the element of a leaf, padded with a zero
    /// to the rate of the sponge.
    pub fn digest_leaf(pos: &u64, elem: &F) -> (r: F)
        ensures
            r == spec_digest_leaf(*pos, *elem),
    {
        let data = [F::from_u64(*pos), *elem, F::zero()];
        assert(data@ =~= leaf_input(*pos, *elem));
        F::sponge_no_padding(data.as_slice())
    }

    /// Hashes the position and both bounds of an interval leaf.
    pub fn digest_interval_leaf(pos: &u64, elem: &Interval<F>) -> (r: F)
        ensures
            r == spec_digest_interval_leaf(*pos, *elem),
    {
        let data = [F::from_u64(*pos), elem.0, elem.1];
        assert(data@ =~= interval_leaf_input(*pos, *elem));
        F::sponge_no_padding(data.as_slice())
    }
}

impl<F: RescueParameter> DigestAlgorithm<F, u64, F> for RescueHash<F> {
    open spec fn is_node_digest(data: Seq<F>, r: F) -> bool {
        r == spec_digest(data)
    }

    open spec fn is_leaf_digest(pos: u64, elem: F, r: Result<F, PrimitivesError>) -> bool {
        r == Ok::<F, PrimitivesError>(spec_digest_leaf(pos, elem))
    }

    fn digest(data: &[F]) -> F {
        RescueHash::<F>::digest(data)
    }

    fn digest_leaf(pos: &u64, elem: &F) -> Result<F, PrimitivesError> {
        Ok(RescueHash::<F>::digest_leaf(pos, elem))
    }
}

impl<F: RescueParameter> DigestAlgorithm<Interval<F>, u64, F> for RescueHash<F> {
    open spec fn is_node_digest(data: Seq<F>, r: F) -> bool {
        r == spec_digest(data)
    }

    open spec fn is_leaf_digest(pos: u64, elem: Interval<F>, r: Result<F, PrimitivesError>) -> bool {
        r == Ok::<F, PrimitivesError>(spec_digest_interval_leaf(pos, elem))
    }

    fn digest(data: &[F]) -> F {
        RescueHash::<F>::digest(data)
    }

    fn digest_leaf(pos: &u64, elem: &Interval<F>) -> Result<F, PrimitivesError> {
        Ok(RescueHash::<F>::digest_interval_leaf(pos, elem))
    }
}

/// The leaf hash of `(pos, elem)` is the parent hash of the children
/// `[encoding of pos, elem, zero]`: the zero padding alone does not keep
/// leaves apart from internal nodes, so the tree must never let such a
/// children vector stand for a leaf.
pub proof fn lemma_leaf_digest_is_padded_node_digest<F: RescueParameter>(pos: u64, elem: F)
    ensures
        spec_digest_leaf(pos, elem) == spec_digest(seq![F::spec_from_u64(pos), elem, F::spec_zero()]),
{
}

/// Two leaves at different positions hand different inputs to the sponge.
pub proof fn lemma_leaf_input_position_sensitive<F: RescueParameter>(p1: u64, p2: u64, elem: F)
    requires
        p1 != p2,
    ensures
        leaf_input(p1, elem) != leaf_input(p2, elem),
{
    F::lemma_from_u64_injective(p1, p2);
    assert(leaf_input(p1, elem)[0] == F::spec_from_u64(p1));
    assert(leaf_input(p2, elem)[0] == F::spec_from_u64(p2));
}

/// Two interval leaves at different positions hand different inputs to
/// the sponge.
pub proof fn lemma_interval_leaf_input_position_sensitive<F: RescueParameter>(
    p1: u64,
    p2: u64,
    elem: Interval<F>,
)
    requires
        p1 != p2,
    ensures
        interval_leaf_input(p1, elem) != interval_leaf_input(p2, elem),
{
    F::lemma_from_u64_injective(p1, p2);
    assert(interval_leaf_input(p1, elem)[0] == F::spec_from_u64(p1));
    assert(interval_leaf_input(p2, elem)[0] == F::spec_from_u64(p2));
}

/// Two leaves at one position with different elements hand different
/// inputs to the sponge.
pub proof fn lemma_leaf_input_element_sensitive<F: RescueParameter>(pos: u64, a: F, b: F)
    requires
        a != b,
    ensures
        leaf_input(pos, a) != leaf_input(pos, b),
{
    assert(leaf_input(pos, a)[1] == a);
    assert(leaf_input(pos, b)[1] == b);
}

/// Two interval leaves at one position with different bounds hand
/// different inputs to the sponge.
pub proof fn lemma_interval_leaf_input_element_sensitive<F: RescueParameter>(
    pos: u64,
    a: Interval<F>,
    b: Interval<F>,
)
    requires
        a.0 != b.0 || a.1 != b.1,
    ensures
        interval_leaf_input(pos, a) != interval_leaf_input(pos, b),
{
    assert(interval_leaf_input(pos, a)[1] == a.0);
    assert(interval_leaf_input(pos, b)[1] == b.0);
    assert(interval_leaf_input(pos, a)[2] == a.1);
    assert(interval_leaf_input(pos, b)[2] == b.1);
}

/// Swapping the first two children changes what the sponge absorbs,
/// unless they are equal.
pub proof fn lemma_children_order_sensitive<F: RescueParameter>(h1: F, h2: F, h3: F)
    requires
        h1 != h2,
    ensures
        seq![h1, h2, h3] != seq![h2, h1, h3],
{
    assert(seq![h1, h2, h3][0] == h1);
    assert(seq![h2, h1, h3][0] == h2);
}

} // verus!
