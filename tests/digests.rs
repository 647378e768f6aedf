use jf_primitives::{node_bytes, DigestAlgorithm, PrimitivesError, Sha3Digest, Sha3Node};
use sha3::Digest;

fn node(b: u8) -> Sha3Node {
    Sha3Node([b; 32])
}

#[test]
fn sha3_digest_hashes_concatenation() {
    let data = [node(1), node(2), node(3)];
    let mut bytes = Vec::new();
    for b in 1u8..=3 {
        bytes.extend_from_slice(&[b; 32]);
    }
    let expected: [u8; 32] = sha3::Sha3_256::digest(&bytes).into();
    assert_eq!(Sha3Digest::digest(&data), Sha3Node(expected));
    assert_ne!(Sha3Digest::digest(&data), node(1));
}

#[test]
fn sha3_digest_of_empty_input() {
    let expected = [
        0xa7, 0xff, 0xc6, 0xf8, 0xbf, 0x1e, 0xd7, 0x66, 0x51, 0xc1, 0x47, 0x56, 0xa0, 0x61, 0xd6,
        0x62, 0xf5, 0x80, 0xff, 0x4d, 0xe4, 0x3b, 0x49, 0xfa, 0x82, 0xd8, 0x0a, 0x4b, 0x80, 0xf8,
        0x43, 0x4a,
    ];
    assert_eq!(Sha3Digest::digest(&[]), Sha3Node(expected));
}

#[test]
fn sha3_digest_is_order_sensitive() {
    let a = Sha3Digest::digest(&[node(1), node(2), node(3)]);
    let b = Sha3Digest::digest(&[node(2), node(1), node(3)]);
    assert_ne!(a, b);
    let c = Sha3Digest::digest(&[node(1), node(1), node(3)]);
    assert_eq!(c, Sha3Digest::digest(&[node(1), node(1), node(3)]));
}

#[test]
fn sha3_digest_through_trait() {
    let data = [node(7), node(8), node(9)];
    let via_trait = <Sha3Digest as DigestAlgorithm<u64, u64, Sha3Node>>::digest(&data);
    assert_eq!(via_trait, Sha3Digest::digest(&data));
}

#[test]
fn sha3_leaf_digest_fails_loudly() {
    let r = Sha3Digest::digest_leaf(&0u64, &5u64);
    assert_eq!(r, Err(PrimitivesError::NotImplemented));
    let t = <Sha3Digest as DigestAlgorithm<u64, u64, Sha3Node>>::digest_leaf(&3, &4);
    assert_eq!(t, Err(PrimitivesError::NotImplemented));
}

#[test]
fn sha3_node_default_and_bytes() {
    let d = Sha3Node::default();
    assert_eq!(d, Sha3Node([0u8; 32]));
    assert_eq!(node(9).as_ref(), &[9u8; 32][..]);
    assert_ne!(node(9), node(8));
    let mut almost = [9u8; 32];
    almost[31] = 8;
    assert_ne!(node(9), Sha3Node(almost));
}

#[test]
fn node_bytes_in_order() {
    let bytes = node_bytes(&[node(1), node(2)]);
    assert_eq!(bytes.len(), 64);
    assert_eq!(&bytes[..32], &[1u8; 32][..]);
    assert_eq!(&bytes[32..], &[2u8; 32][..]);
    assert!(node_bytes(&[]).is_empty());
}
