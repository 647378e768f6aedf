use ark_ec::ProjectiveCurve;
use jf_primitives::{hash_to_group_seed, PrimitivesError, SWHashToGroup};
use sha2::Digest;

fn h381(data: &[u8], cs_id: &[u8]) -> ark_bls12_381::G1Projective {
    <ark_bls12_381::g1::Parameters as SWHashToGroup>::hash_to_group(data, cs_id)
        .unwrap()
        .point
        .0
}

fn h377(data: &[u8], cs_id: &[u8]) -> ark_bls12_377::G1Projective {
    <ark_bls12_377::g1::Parameters as SWHashToGroup>::hash_to_group(data, cs_id)
        .unwrap()
        .point
        .0
}

#[test]
fn test_hash_to_group() {
    let data = vec![1u8, 2, 3, 4, 5];
    let _g1 = <ark_bls12_381::g1::Parameters as SWHashToGroup>::hash_to_group(
        data.as_ref(),
        "bls signature".as_ref(),
    )
    .unwrap();
    let _g2 = <ark_bls12_377::g1::Parameters as SWHashToGroup>::hash_to_group(
        data.as_ref(),
        "bls signature".as_ref(),
    )
    .unwrap();
}

#[test]
fn hash_to_group_is_deterministic() {
    let data = [1u8, 2, 3, 4, 5];
    assert_eq!(h381(&data, b"bls signature"), h381(&data, b"bls signature"));
    assert_eq!(h377(&data, b"bls signature"), h377(&data, b"bls signature"));
    assert_eq!(h381(&[], &[]), h381(&[], &[]));
}

#[test]
fn hash_to_group_depends_on_context() {
    let data = [1u8, 2, 3, 4, 5];
    assert_ne!(h381(&data, b"bls signature"), h381(&data, b"vrf"));
    assert_ne!(h377(&data, b"bls signature"), h377(&data, b"vrf"));
}

#[test]
fn hash_to_group_depends_on_message() {
    assert_ne!(h381(&[1, 2, 3], b"ctx"), h381(&[1, 2, 4], b"ctx"));
    assert_ne!(h377(&[1, 2, 3], b"ctx"), h377(&[1, 2, 4], b"ctx"));
}

#[test]
fn hash_to_group_lands_in_prime_subgroup() {
    let inputs: [(&[u8], &[u8]); 4] = [
        (&[1, 2, 3, 4, 5], b"bls signature"),
        (&[], b"bls signature"),
        (b"message", b""),
        (&[0xff; 100], b"context"),
    ];
    for (data, cs_id) in inputs.iter() {
        let p = h381(data, cs_id).into_affine();
        assert!(p.is_on_curve());
        assert!(p.is_in_correct_subgroup_assuming_on_curve());
        let q = h377(data, cs_id).into_affine();
        assert!(q.is_on_curve());
        assert!(q.is_in_correct_subgroup_assuming_on_curve());
    }
}

#[test]
fn hash_to_group_fixed_vector_bls12_381() {
    let p = h381(&[1, 2, 3, 4, 5], b"bls signature");
    assert_eq!(
        format!("{}", p),
        "GroupAffine(x=Fp384 \"(0A822D6AD7562206AAA1BD044C17743977163475AB7CAD414E1EB0A9683E7D3E7CAE6F194681F85224AEF3B53B9A7DE3)\", \
         y=Fp384 \"(175A0B13F49B937ADAA06AF7CBBEAD179746F50CC858350F304A345504CA3372314CDED5C277FEBBC34D40739438822C)\")"
    );
}

#[test]
fn hash_to_group_fixed_vector_bls12_377() {
    let q = h377(&[1, 2, 3, 4, 5], b"bls signature");
    assert_eq!(
        format!("{}", q),
        "GroupAffine(x=Fp384 \"(002DF9065F2454DF2A07D89D41DED2A41808C6C88FA09C6674A5ACC8360D717762AD4C403411F58C465591140B8F1E4C)\", \
         y=Fp384 \"(00A43E22BEB334AC533E646572B0F50C610944EDF64BC3B9F6F93254E927498FC9A0FAD3BE6A1DCCD96603A0985B3932)\")"
    );
}

#[test]
fn seed_hashes_context_then_message() {
    let seed = hash_to_group_seed(&[4, 5, 6], &[1, 2, 3]);
    let expected: [u8; 32] = sha2::Sha256::digest([1u8, 2, 3, 4, 5, 6]).into();
    assert_eq!(seed, expected);
    let swapped = hash_to_group_seed(&[1, 2, 3], &[4, 5, 6]);
    assert_ne!(seed, swapped);
}

#[test]
fn seed_depends_on_context() {
    let data = [7u8, 8, 9];
    assert_ne!(hash_to_group_seed(&data, b"a"), hash_to_group_seed(&data, b"ab"));
    assert_ne!(hash_to_group_seed(&data, b"ab"), hash_to_group_seed(&data, b"ba"));
    assert_eq!(hash_to_group_seed(&data, b"ab"), hash_to_group_seed(&data, b"ab"));
}

#[test]
fn seed_of_empty_input() {
    let seed = hash_to_group_seed(&[], &[]);
    assert_eq!(
        seed,
        [
            0xe3, 0xb0, 0xc4, 0x42, 0x98, 0xfc, 0x1c, 0x14, 0x9a, 0xfb, 0xf4, 0xc8, 0x99, 0x6f,
            0xb9, 0x24, 0x27, 0xae, 0x41, 0xe4, 0x64, 0x9b, 0x93, 0x4c, 0xa4, 0x95, 0x99, 0x1b,
            0x78, 0x52, 0xb8, 0x55
        ]
    );
}

#[test]
fn sampling_error_is_distinct() {
    assert_ne!(PrimitivesError::SamplingExhausted, PrimitivesError::NotImplemented);
}
