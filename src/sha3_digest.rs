use vstd::prelude::*;

use sha3::Digest;

use crate::errors::PrimitivesError;
use crate::merkle_tree::{DigestAlgorithm, NodeValue};

verus! {

/// What SHA3-256 returns on the given bytes.
pub uninterp spec fn sha3_256_of(b: Seq<u8>) -> Seq<u8>;

/// Relies on sha3::Sha3_256 (through digest::Digest::digest): a 32-byte
/// digest that depends on the input bytes alone.
#[verifier::external_body]
fn sha3_256(bytes: &[u8]) -> (r: [u8; 32])
    ensures
        r@ == sha3_256_of(bytes@),
{
    sha3::Sha3_256::digest(bytes).into()
}

/// A 32-byte node hash of the byte-oriented backend.
#[derive(Debug, Clone, Copy, Eq)]
pub struct Sha3Node(pub [u8; 32]);

impl View for Sha3Node {
    type V = Seq<u8>;

    open spec fn view(&self) -> Seq<u8> {
        self.0@
    }
}

impl PartialEq for Sha3Node {
    fn eq(&self, o: &Sha3Node) -> (r: bool) {
        let mut i: usize = 0;
        while i < 32
            invariant
                i <= 32,
                forall|k: int| 0 <= k < i ==> self@[k] == o@[k],
            decreases 32 - i,
        {
            if self.0[i] != o.0[i] {
                return false;
            }
            i = i + 1;
        }
        assert(self@ =~= o@);
        true
    }
}

impl vstd::std_specs::cmp::PartialEqSpecImpl for Sha3Node {
    open spec fn obeys_eq_spec() -> bool {
        true
    }

    open spec fn eq_spec(&self, o: &Sha3Node) -> bool {
        self@ == o@
    }
}

impl NodeValue for Sha3Node {}

impl Default for Sha3Node {
    /// The empty node: 32 zero bytes.
    fn default() -> (r: Sha3Node)
        ensures
            r@ == Seq::new(32, |i: int| 0u8),
    {
        let r = Sha3Node([0u8; 32]);
        assert(r@ =~= Seq::new(32, |i: int| 0u8));
        r
    }
}

impl Sha3Node {
    /// The raw bytes of the node.
    pub fn as_ref(&self) -> (r: &[u8])
        ensures
            r@ == self@,
            r@.len() == 32,
    {
        self.0.as_slice()
    }
}

/// The bytes of the given nodes, one after another, in order.
pub open spec fn concat_nodes(s: Seq<Sha3Node>) -> Seq<u8>
    decreases s.len(),
{
    if s.len() == 0 {
        Seq::empty()
    } else {
        concat_nodes(s.drop_last()) + s.last()@
    }
}

/// Concatenates the raw bytes of `data` in order.
pub fn node_bytes(data: &[Sha3Node]) -> (r: Vec<u8>)
    ensures
        r@ == concat_nodes(data@),
        r@.len() == data@.len() * 32,
{
    let mut out: Vec<u8> = Vec::new();
    let mut i: usize = 0;
    while i < data.len()
        invariant
            i <= data@.len(),
            out@ == concat_nodes(data@.subrange(0, i as int)),
            out@.len() == i * 32,
        decreases data@.len() - i,
    {
        let node = &data[i];
        let ghost before = out@;
        let mut j: usize = 0;
        while j < 32
            invariant
                j <= 32,
                out@ == before + node@.subrange(0, j as int),
                node@.len() == 32,
            decreases 32 - j,
        {
            out.push(node.0[j]);
            j = j + 1;
            assert(out@ =~= before + node@.subrange(0, j as int));
        }
        assert(node@.subrange(0, 32) =~= node@);
        assert(data@.subrange(0, i + 1).drop_last() =~= data@.subrange(0, i as int));
        i = i + 1;
        assert(out@.len() == i * 32) by (nonlinear_arith)
            requires
                out@.len() == before.len() + 32,
                before.len() == (i - 1) * 32,
        ;
    }
    assert(data@.subrange(0, data@.len() as int) =~= data@);
    out
}

/// The bytes of three nodes are the bytes of each in turn.
pub proof fn lemma_concat_three(a: Sha3Node, b: Sha3Node, c: Sha3Node)
    ensures
        concat_nodes(seq![a, b, c]) == a@ + b@ + c@,
{
    let s = seq![a, b, c];
    assert(s.drop_last() =~= seq![a, b]);
    assert(seq![a, b].drop_last() =~= seq![a]);
    assert(seq![a].drop_last() =~= Seq::<Sha3Node>::empty());
    assert(concat_nodes(Seq::<Sha3Node>::empty()) == Seq::<u8>::empty());
    assert(concat_nodes(seq![a]) == concat_nodes(Seq::<Sha3Node>::empty()) + a@);
    assert(Seq::<u8>::empty() + a@ =~= a@);
    assert(concat_nodes(seq![a, b]) == concat_nodes(seq![a]) + b@);
    assert(concat_nodes(s) == concat_nodes(seq![a, b]) + c@);
}

/// Swapping the first two children changes the bytes that are hashed,
/// unless the two children are equal.
pub proof fn lemma_children_bytes_order_sensitive(a: Sha3Node, b: Sha3Node, c: Sha3Node)
    requires
        a@ != b@,
    ensures
        concat_nodes(seq![a, b, c]) != concat_nodes(seq![b, a, c]),
{
    lemma_concat_three(a, b, c);
    lemma_concat_three(b, a, c);
    let x = a@ + b@ + c@;
    let y = b@ + a@ + c@;
    assert(x.subrange(0, 32) =~= a@);
    assert(y.subrange(0, 32) =~= b@);
}

/// The byte-oriented digest backend over SHA3-256.
pub struct Sha3Digest();

impl Sha3Digest {
    /// Hashes the concatenation of the children's bytes, in order.
    pub fn digest(data: &[Sha3Node]) -> (r: Sha3Node)
        ensures
            r@ == sha3_256_of(concat_nodes(data@)),
    {
        let bytes = node_bytes(data);
        Sha3Node(sha3_256(bytes.as_slice()))
    }

    /// The leaf hash of this backend has no encoding yet: every call reports
    /// it as not implemented, and never returns a hash.
    pub fn digest_leaf<I, E>(pos: &I, elem: &E) -> (r: Result<Sha3Node, PrimitivesError>)
        ensures
            r == Err::<Sha3Node, PrimitivesError>(PrimitivesError::NotImplemented),
    {
        Err(PrimitivesError::NotImplemented)
    }
}

impl<E, I> DigestAlgorithm<E, I, Sha3Node> for Sha3Digest {
    open spec fn is_node_digest(data: Seq<Sha3Node>, r: Sha3Node) -> bool {
        r@ == sha3_256_of(concat_nodes(data))
    }

    open spec fn is_leaf_digest(pos: I, elem: E, r: Result<Sha3Node, PrimitivesError>) -> bool {
        r == Err::<Sha3Node, PrimitivesError>(PrimitivesError::NotImplemented)
    }

    fn digest(data: &[Sha3Node]) -> Sha3Node {
        Sha3Digest::digest(data)
    }

    fn digest_leaf(pos: &I, elem: &E) -> Result<Sha3Node, PrimitivesError> {
        Sha3Digest::digest_leaf(pos, elem)
    }
}

} // verus!
