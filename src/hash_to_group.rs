use vstd::prelude::*;

use ark_ec::AffineCurve;
use ark_std::rand::{Rng, SeedableRng};
use ark_std::UniformRand;
use rand_chacha::ChaCha20Rng;
use sha2::Digest;

use crate::errors::PrimitivesError;

verus! {

#[verifier::external_type_specification]
#[verifier::external_body]
pub struct ExChaCha20Rng(ChaCha20Rng);

#[verifier::external_type_specification]
#[verifier::external_body]
pub struct ExBls12381G1Parameters(ark_bls12_381::g1::Parameters);

#[verifier::external_type_specification]
#[verifier::external_body]
pub struct ExBls12377G1Parameters(ark_bls12_377::g1::Parameters);

#[verifier::external_type_specification]
#[verifier::external_body]
pub struct ExBls12381FqParameters(ark_bls12_381::FqParameters);

#[verifier::external_type_specification]
#[verifier::external_body]
pub struct ExBls12377FqParameters(ark_bls12_377::FqParameters);

#[verifier::external_type_specification]
#[verifier::external_body]
#[verifier::reject_recursive_types(P)]
pub struct ExFp384<P>(ark_ff::Fp384<P>);

/// The most candidates that hash-to-group draws before it gives up.
pub const MAX_ATTEMPTS: u64 = 0xffff_ffff_ffff_ffff;

/// The record of a one-bit draw in a generator's history.
pub const DRAW_BOOL: u8 = 0;

/// The record of a BLS12-381 base-field draw in a generator's history.
pub const DRAW_FQ_381: u8 = 1;

/// The record of a BLS12-377 base-field draw in a generator's history.
pub const DRAW_FQ_377: u8 = 2;

/// Hash-to-group depends on its inputs only through the context followed
/// by the message: equal concatenations give the same outcome, and the
/// same point when it succeeds.
pub proof fn lemma_hash_to_group_input_determines<C: SWCurveSampling>(
    data1: Seq<u8>,
    cs1: Seq<u8>,
    data2: Seq<u8>,
    cs2: Seq<u8>,
)
    requires
        cs1 + data1 == cs2 + data2,
    ensures
        spec_hash_to_group::<C>(sha256_of(cs1 + data1)) == spec_hash_to_group::<C>(sha256_of(cs2 + data2)),
{
}

/// What SHA-256 returns on the given bytes.
pub uninterp spec fn sha256_of(b: Seq<u8>) -> Seq<u8>;

/// Relies on sha2::Sha256 (through digest::Digest::digest): a 32-byte
/// digest that depends on the input bytes alone.
#[verifier::external_body]
fn sha256(bytes: &[u8]) -> (r: [u8; 32])
    ensures
        r@ == sha256_of(bytes@),
{
    sha2::Sha256::digest(bytes).into()
}

/// The bit that a ChaCha20 generator seeded with `seed` draws after the
/// draws `history`.
pub uninterp spec fn chacha_bool_of(seed: Seq<u8>, history: Seq<u8>) -> bool;

/// A ChaCha20 generator, modelled by its seed and the draws made so far:
/// what it draws next is a function of the two.
pub struct SeededRng {
    rng: ChaCha20Rng,
    seed: Ghost<Seq<u8>>,
    history: Ghost<Seq<u8>>,
}

impl SeededRng {
    /// The seed the generator was made from.
    pub closed spec fn seed(&self) -> Seq<u8> {
        self.seed@
    }

    /// The draws made so far, one record each.
    pub closed spec fn history(&self) -> Seq<u8> {
        self.history@
    }
}

/// Relies on rand_chacha::ChaCha20Rng::from_seed: a generator whose stream
/// is fixed by the seed.
#[verifier::external_body]
fn chacha_from_seed(seed: [u8; 32]) -> (r: SeededRng)
    ensures
        r.seed() == seed@,
        r.history() == Seq::<u8>::empty(),
{
    SeededRng { rng: ChaCha20Rng::from_seed(seed), seed: Ghost(seed@), history: Ghost(Seq::empty()) }
}

/// Relies on rand::Rng::gen::<bool>: the bit depends on the generator's
/// state alone.
#[verifier::external_body]
fn sample_bool(rng: &mut SeededRng) -> (r: bool)
    ensures
        r == chacha_bool_of(old(rng).seed(), old(rng).history()),
        final(rng).seed() == old(rng).seed(),
        final(rng).history() == old(rng).history().push(DRAW_BOOL),
{
    let r = rng.rng.gen::<bool>();
    rng.history = Ghost(rng.history@.push(DRAW_BOOL));
    r
}

/// The seed of hash-to-group: the context bytes followed by the message
/// bytes, hashed with SHA-256.
pub fn hash_to_group_seed(data: &[u8], cs_id: &[u8]) -> (r: [u8; 32])
    ensures
        r@ == sha256_of(cs_id@ + data@),
{
    let mut input: Vec<u8> = Vec::new();
    let mut i: usize = 0;
    while i < cs_id.len()
        invariant
            i <= cs_id@.len(),
            input@ == cs_id@.subrange(0, i as int),
        decreases cs_id@.len() - i,
    {
        input.push(cs_id[i]);
        i = i + 1;
        assert(input@ =~= cs_id@.subrange(0, i as int));
    }
    let mut j: usize = 0;
    while j < data.len()
        invariant
            j <= data@.len(),
            input@ == cs_id@ + data@.subrange(0, j as int),
        decreases data@.len() - j,
    {
        input.push(data[j]);
        j = j + 1;
        assert(input@ =~= cs_id@ + data@.subrange(0, j as int));
    }
    assert(input@ =~= cs_id@ + data@);
    sha256(input.as_slice())
}

/// For one message, distinct contexts hand distinct inputs to the hash that
/// makes the seed, whatever their lengths.
pub proof fn lemma_seed_input_context_sensitive(data: Seq<u8>, cs1: Seq<u8>, cs2: Seq<u8>)
    requires
        cs1 != cs2,
    ensures
        cs1 + data != cs2 + data,
{
    if cs1.len() == cs2.len() {
        assert(!(cs1 =~= cs2));
        let k = choose|k: int| 0 <= k < cs1.len() && cs1[k] != cs2[k];
        assert((cs1 + data)[k] == cs1[k]);
        assert((cs2 + data)[k] == cs2[k]);
    } else {
        assert((cs1 + data).len() != (cs2 + data).len());
    }
}

/// The draws of the first `i` rounds of hash-to-group: a base-field
/// element, then a bit, in each round.
pub open spec fn rounds_history<C: SWCurveSampling>(i: nat) -> Seq<u8>
    decreases i,
{
    if i == 0 {
        Seq::empty()
    } else {
        rounds_history::<C>((i - 1) as nat) + seq![C::field_draw_op(), DRAW_BOOL]
    }
}

/// The curve point that round `i` finds from `seed`, if its candidate lies
/// on the curve.
pub open spec fn candidate<C: SWCurveSampling>(seed: Seq<u8>, i: nat) -> Option<Seq<u8>> {
    let h = rounds_history::<C>(i);
    C::spec_point_from_x(C::spec_field_draw(seed, h), chacha_bool_of(seed, h.push(C::field_draw_op())))
}

/// The result of at most `fuel` rounds from round `i` on: the first point
/// found, multiplied by the cofactor.
pub open spec fn sample_from<C: SWCurveSampling>(seed: Seq<u8>, i: nat, fuel: nat) -> Option<Seq<u8>>
    decreases fuel,
{
    if fuel == 0 {
        None
    } else {
        match candidate::<C>(seed, i) {
            Some(p) => Some(C::spec_clear_cofactor(p)),
            None => sample_from::<C>(seed, i + 1, (fuel - 1) as nat),
        }
    }
}

/// What hash-to-group gives from `seed`: the first point found within
/// `MAX_ATTEMPTS` rounds, multiplied by the cofactor.
pub open spec fn spec_hash_to_group<C: SWCurveSampling>(seed: Seq<u8>) -> Option<Seq<u8>> {
    sample_from::<C>(seed, 0, MAX_ATTEMPTS as nat)
}

/// What hash-to-group needs of a short-Weierstrass curve: drawing a
/// base-field element, recovering a point from its x-coordinate, and
/// clearing the cofactor.
pub trait SWCurveSampling: Sized {
    type BaseField: View<V = Seq<u8>>;
    type Affine: View<V = Seq<u8>>;
    type Projective: View<V = Seq<u8>>;

    /// The record that a base-field draw leaves in a generator's history.
    spec fn field_draw_op() -> u8;

    /// The encoding of the base-field element drawn after `history`.
    spec fn spec_field_draw(seed: Seq<u8>, history: Seq<u8>) -> Seq<u8>;

    /// The encoding of the point with x-coordinate `x`, if there is one.
    spec fn spec_point_from_x(x: Seq<u8>, greatest: bool) -> Option<Seq<u8>>;

    /// The encoding of the point `p` multiplied by the cofactor.
    spec fn spec_clear_cofactor(p: Seq<u8>) -> Seq<u8>;

    /// Draws a uniformly random base-field element.
    fn sample_base_field(rng: &mut SeededRng) -> (r: Self::BaseField)
        ensures
            r@ == Self::spec_field_draw(old(rng).seed(), old(rng).history()),
            final(rng).seed() == old(rng).seed(),
            final(rng).history() == old(rng).history().push(Self::field_draw_op()),
    ;

    /// The curve point with x-coordinate `x` and the y-coordinate that
    /// `greatest` selects, if `x` is on the curve.
    fn get_point_from_x(x: Self::BaseField, greatest: bool) -> (r: Option<Self::Affine>)
        ensures
            r is Some <==> Self::spec_point_from_x(x@, greatest) is Some,
            r matches Some(p) ==> Self::spec_point_from_x(x@, greatest) == Some(p@),
    ;

    /// Projects a curve point into the prime-order subgroup.
    fn mul_by_cofactor_to_projective(p: &Self::Affine) -> (r: Self::Projective)
        ensures
            r@ == Self::spec_clear_cofactor(p@),
    ;
}

/// Hash-to-group for a short-Weierstrass curve, by rejection sampling:
/// a generator seeded with SHA-256 of the context and the message draws a
/// base-field element and a sign bit until they name a point of the curve,
/// which is then multiplied by the cofactor.
pub trait SWHashToGroup: SWCurveSampling {
    /// Maps `data` under the context `cs_id` to an element of the prime-order
    /// subgroup. It fails only when no round of `MAX_ATTEMPTS` finds a point.
    fn hash_to_group(data: &[u8], cs_id: &[u8]) -> (r: Result<Self::Projective, PrimitivesError>)
        ensures
            r is Ok <==> spec_hash_to_group::<Self>(sha256_of(cs_id@ + data@)) is Some,
            r matches Ok(p) ==> spec_hash_to_group::<Self>(sha256_of(cs_id@ + data@)) == Some(p@),
            r is Err ==> r == Err::<Self::Projective, PrimitivesError>(PrimitivesError::SamplingExhausted),
            r is Err ==> forall|i: int|
                0 <= i < MAX_ATTEMPTS ==> #[trigger] candidate::<Self>(sha256_of(cs_id@ + data@), i as nat) is None,
    {
        let seed = hash_to_group_seed(data, cs_id);
        let ghost s = seed@;
        let mut rng = chacha_from_seed(seed);
        let mut attempts: u64 = 0;
        while attempts < MAX_ATTEMPTS
            invariant
                s == sha256_of(cs_id@ + data@),
                rng.seed() == s,
                rng.history() == rounds_history::<Self>(attempts as nat),
                spec_hash_to_group::<Self>(s)
                    == sample_from::<Self>(s, attempts as nat, (MAX_ATTEMPTS - attempts) as nat),
                forall|i: int| 0 <= i < attempts ==> #[trigger] candidate::<Self>(s, i as nat) is None,
            decreases MAX_ATTEMPTS - attempts,
        {
            let ghost h = rng.history();
            let x = Self::sample_base_field(&mut rng);
            let y_flag = sample_bool(&mut rng);
            assert(candidate::<Self>(s, attempts as nat) == Self::spec_point_from_x(x@, y_flag));
            let ghost fuel = (MAX_ATTEMPTS - attempts) as nat;
            if let Some(p) = Self::get_point_from_x(x, y_flag) {
                let q = Self::mul_by_cofactor_to_projective(&p);
                assert(sample_from::<Self>(s, attempts as nat, fuel) == Some(q@));
                return Ok(q);
            }
            assert(sample_from::<Self>(s, attempts as nat, fuel)
                == sample_from::<Self>(s, (attempts + 1) as nat, (fuel - 1) as nat));
            assert(rng.history() =~= rounds_history::<Self>((attempts + 1) as nat));
            attempts = attempts + 1;
        }
        Err(PrimitivesError::SamplingExhausted)
    }
}

/// A point of BLS12-381 G1 in affine form, as ark_ec holds it.
#[verifier::external_body]
pub struct Bls12381G1AffinePoint(ark_bls12_381::G1Affine);

/// A point of BLS12-381 G1 in projective form, as ark_ec holds it.
#[verifier::external_body]
pub struct Bls12381G1Point(pub ark_bls12_381::G1Projective);

/// An element of the BLS12-381 base field; its view is its byte encoding.
pub struct Bls12381Fq {
    raw: ark_bls12_381::Fq,
    view: Ghost<Seq<u8>>,
}

impl View for Bls12381Fq {
    type V = Seq<u8>;

    closed spec fn view(&self) -> Seq<u8> {
        self.view@
    }
}

/// A point of BLS12-381 G1 in affine form; its view is its byte encoding.
pub struct Bls12381G1Affine {
    point: Bls12381G1AffinePoint,
    view: Ghost<Seq<u8>>,
}

impl View for Bls12381G1Affine {
    type V = Seq<u8>;

    closed spec fn view(&self) -> Seq<u8> {
        self.view@
    }
}

/// A point of BLS12-381 G1 in projective form; its view is the byte
/// encoding of its affine form.
pub struct Bls12381G1Projective {
    pub point: Bls12381G1Point,
    view: Ghost<Seq<u8>>,
}

impl View for Bls12381G1Projective {
    type V = Seq<u8>;

    closed spec fn view(&self) -> Seq<u8> {
        self.view@
    }
}

/// The encoding of the BLS12-381 base-field element that a generator
/// seeded with `seed` draws after the draws `history`.
pub uninterp spec fn fq381_draw_of(seed: Seq<u8>, history: Seq<u8>) -> Seq<u8>;

/// The encoding of the BLS12-381 G1 point with x-coordinate `x` and the
/// y-coordinate that `greatest` selects, if there is one.
pub uninterp spec fn g1_381_from_x(x: Seq<u8>, greatest: bool) -> Option<Seq<u8>>;

/// The encoding of a BLS12-381 G1 point multiplied by the cofactor.
pub uninterp spec fn g1_381_clear_cofactor(p: Seq<u8>) -> Seq<u8>;

/// Relies on ark_std::UniformRand::rand for the BLS12-381 base field: the
/// element depends on the generator's state alone.
#[verifier::external_body]
fn sample_fq_381(rng: &mut SeededRng) -> (r: Bls12381Fq)
    ensures
        r@ == fq381_draw_of(old(rng).seed(), old(rng).history()),
        final(rng).seed() == old(rng).seed(),
        final(rng).history() == old(rng).history().push(DRAW_FQ_381),
{
    let view = Ghost(fq381_draw_of(rng.seed@, rng.history@));
    let raw = ark_bls12_381::Fq::rand(&mut rng.rng);
    rng.history = Ghost(rng.history@.push(DRAW_FQ_381));
    Bls12381Fq { raw, view }
}

/// Relies on ark_ec's GroupAffine::get_point_from_x for BLS12-381 G1: the
/// result depends on `x` and `greatest` alone.
#[verifier::external_body]
fn point_from_x_381(x: Bls12381Fq, greatest: bool) -> (r: Option<Bls12381G1Affine>)
    ensures
        r is Some <==> g1_381_from_x(x@, greatest) is Some,
        r matches Some(p) ==> g1_381_from_x(x@, greatest) == Some(p@),
{
    let view = Ghost(g1_381_from_x(x.view@, greatest).unwrap());
    ark_bls12_381::G1Affine::get_point_from_x(x.raw, greatest).map(
        |p| Bls12381G1Affine { point: Bls12381G1AffinePoint(p), view },
    )
}

/// Relies on ark_ec's AffineCurve::mul_by_cofactor_to_projective for
/// BLS12-381 G1: the result depends on the point alone.
#[verifier::external_body]
fn clear_cofactor_381(p: &Bls12381G1Affine) -> (r: Bls12381G1Projective)
    ensures
        r@ == g1_381_clear_cofactor(p@),
{
    let view = Ghost(g1_381_clear_cofactor(p.view@));
    Bls12381G1Projective { point: Bls12381G1Point(p.point.0.mul_by_cofactor_to_projective()), view }
}

// The default algorithm serves this curve until a constant-time map
// (simplified SWU) takes its place.
impl SWHashToGroup for ark_bls12_381::g1::Parameters {}

impl SWCurveSampling for ark_bls12_381::g1::Parameters {
    type BaseField = Bls12381Fq;
    type Affine = Bls12381G1Affine;
    type Projective = Bls12381G1Projective;

    open spec fn field_draw_op() -> u8 {
        DRAW_FQ_381
    }

    open spec fn spec_field_draw(seed: Seq<u8>, history: Seq<u8>) -> Seq<u8> {
        fq381_draw_of(seed, history)
    }

    open spec fn spec_point_from_x(x: Seq<u8>, greatest: bool) -> Option<Seq<u8>> {
        g1_381_from_x(x, greatest)
    }

    open spec fn spec_clear_cofactor(p: Seq<u8>) -> Seq<u8> {
        g1_381_clear_cofactor(p)
    }

    fn sample_base_field(rng: &mut SeededRng) -> Bls12381Fq {
        sample_fq_381(rng)
    }

    fn get_point_from_x(x: Bls12381Fq, greatest: bool) -> Option<Bls12381G1Affine> {
        point_from_x_381(x, greatest)
    }

    fn mul_by_cofactor_to_projective(p: &Bls12381G1Affine) -> Bls12381G1Projective {
        clear_cofactor_381(p)
    }
}

/// A point of BLS12-377 G1 in affine form, as ark_ec holds it.
#[verifier::external_body]
pub struct Bls12377G1AffinePoint(ark_bls12_377::G1Affine);

/// A point of BLS12-377 G1 in projective form, as ark_ec holds it.
#[verifier::external_body]
pub struct Bls12377G1Point(pub ark_bls12_377::G1Projective);

/// An element of the BLS12-377 base field; its view is its byte encoding.
pub struct Bls12377Fq {
    raw: ark_bls12_377::Fq,
    view: Ghost<Seq<u8>>,
}

impl View for Bls12377Fq {
    type V = Seq<u8>;

    closed spec fn view(&self) -> Seq<u8> {
        self.view@
    }
}

/// A point of BLS12-377 G1 in affine form; its view is its byte encoding.
pub struct Bls12377G1Affine {
    point: Bls12377G1AffinePoint,
    view: Ghost<Seq<u8>>,
}

impl View for Bls12377G1Affine {
    type V = Seq<u8>;

    closed spec fn view(&self) -> Seq<u8> {
        self.view@
    }
}

/// A point of BLS12-377 G1 in projective form; its view is the byte
/// encoding of its affine form.
pub struct Bls12377G1Projective {
    pub point: Bls12377G1Point,
    view: Ghost<Seq<u8>>,
}

impl View for Bls12377G1Projective {
    type V = Seq<u8>;

    closed spec fn view(&self) -> Seq<u8> {
        self.view@
    }
}

/// The encoding of the BLS12-377 base-field element that a generator
/// seeded with `seed` draws after the draws `history`.
pub uninterp spec fn fq377_draw_of(seed: Seq<u8>, history: Seq<u8>) -> Seq<u8>;

/// The encoding of the BLS12-377 G1 point with x-coordinate `x` and the
/// y-coordinate that `greatest` selects, if there is one.
pub uninterp spec fn g1_377_from_x(x: Seq<u8>, greatest: bool) -> Option<Seq<u8>>;

/// The encoding of a BLS12-377 G1 point multiplied by the cofactor.
pub uninterp spec fn g1_377_clear_cofactor(p: Seq<u8>) -> Seq<u8>;

/// Relies on ark_std::UniformRand::rand for the BLS12-377 base field: the
/// element depends on the generator's state alone.
#[verifier::external_body]
fn sample_fq_377(rng: &mut SeededRng) -> (r: Bls12377Fq)
    ensures
        r@ == fq377_draw_of(old(rng).seed(), old(rng).history()),
        final(rng).seed() == old(rng).seed(),
        final(rng).history() == old(rng).history().push(DRAW_FQ_377),
{
    let view = Ghost(fq377_draw_of(rng.seed@, rng.history@));
    let raw = ark_bls12_377::Fq::rand(&mut rng.rng);
    rng.history = Ghost(rng.history@.push(DRAW_FQ_377));
    Bls12377Fq { raw, view }
}

/// Relies on ark_ec's GroupAffine::get_point_from_x for BLS12-377 G1: the
/// result depends on `x` and `greatest` alone.
#[verifier::external_body]
fn point_from_x_377(x: Bls12377Fq, greatest: bool) -> (r: Option<Bls12377G1Affine>)
    ensures
        r is Some <==> g1_377_from_x(x@, greatest) is Some,
        r matches Some(p) ==> g1_377_from_x(x@, greatest) == Some(p@),
{
    let view = Ghost(g1_377_from_x(x.view@, greatest).unwrap());
    ark_bls12_377::G1Affine::get_point_from_x(x.raw, greatest).map(
        |p| Bls12377G1Affine { point: Bls12377G1AffinePoint(p), view },
    )
}

/// Relies on ark_ec's AffineCurve::mul_by_cofactor_to_projective for
/// BLS12-377 G1: the result depends on the point alone.
#[verifier::external_body]
fn clear_cofactor_377(p: &Bls12377G1Affine) -> (r: Bls12377G1Projective)
    ensures
        r@ == g1_377_clear_cofactor(p@),
{
    let view = Ghost(g1_377_clear_cofactor(p.view@));
    Bls12377G1Projective { point: Bls12377G1Point(p.point.0.mul_by_cofactor_to_projective()), view }
}

// The default algorithm serves this curve until a constant-time map
// (simplified SWU) takes its place.
impl SWHashToGroup for ark_bls12_377::g1::Parameters {}

impl SWCurveSampling for ark_bls12_377::g1::Parameters {
    type BaseField = Bls12377Fq;
    type Affine = Bls12377G1Affine;
    type Projective = Bls12377G1Projective;

    open spec fn field_draw_op() -> u8 {
        DRAW_FQ_377
    }

    open spec fn spec_field_draw(seed: Seq<u8>, history: Seq<u8>) -> Seq<u8> {
        fq377_draw_of(seed, history)
    }

    open spec fn spec_point_from_x(x: Seq<u8>, greatest: bool) -> Option<Seq<u8>> {
        g1_377_from_x(x, greatest)
    }

    open spec fn spec_clear_cofactor(p: Seq<u8>) -> Seq<u8> {
        g1_377_clear_cofactor(p)
    }

    fn sample_base_field(rng: &mut SeededRng) -> Bls12377Fq {
        sample_fq_377(rng)
    }

    fn get_point_from_x(x: Bls12377Fq, greatest: bool) -> Option<Bls12377G1Affine> {
        point_from_x_377(x, greatest)
    }

    fn mul_by_cofactor_to_projective(p: &Bls12377G1Affine) -> Bls12377G1Projective {
        clear_cofactor_377(p)
    }
}

} // verus!
