//! Trusted interface to the BLS12-381 arithmetic of `midnight_curves`.
//!
//! Every executable function in this module is an `external_body` wrapper
//! around a single operation of the curve library.  The uninterpreted spec
//! functions give names to the results of those operations; the rest of the
//! crate reasons purely in terms of these names.

use vstd::prelude::*;
use vstd::arithmetic::power2::pow2;

use ff::Field;
use ff::FromUniformBytes;
use ff::PrimeField;
use group::prime::PrimeCurveAffine;
use group::Curve;
use midnight_curves::serde_traits::SerdeObject;
use rand_core::SeedableRng;

verus! {

#[verifier::external_type_specification]
#[verifier::external_body]
pub struct ExFq(midnight_curves::Fq);

#[verifier::external_type_specification]
#[verifier::external_body]
pub struct ExG1Affine(midnight_curves::G1Affine);

#[verifier::external_type_specification]
#[verifier::external_body]
pub struct ExG2Affine(midnight_curves::G2Affine);

#[verifier::external_type_specification]
#[verifier::external_body]
pub struct ExG1Projective(midnight_curves::G1Projective);

#[verifier::external_type_specification]
#[verifier::external_body]
pub struct ExG2Projective(midnight_curves::G2Projective);

#[verifier::external_type_specification]
#[verifier::external_body]
pub struct ExGt(midnight_curves::Gt);

// ---------------------------------------------------------------------------
// Names for the results of the curve library's operations.
// ---------------------------------------------------------------------------

pub uninterp spec fn scalar_from_u64_of(n: u64) -> midnight_curves::Fq;

pub uninterp spec fn scalar_add_of(a: midnight_curves::Fq, b: midnight_curves::Fq) -> midnight_curves::Fq;

pub uninterp spec fn scalar_mul_of(a: midnight_curves::Fq, b: midnight_curves::Fq) -> midnight_curves::Fq;

pub uninterp spec fn scalar_from_wide_of(bytes: Seq<u8>) -> midnight_curves::Fq;

pub uninterp spec fn scalar_bytes_of(s: midnight_curves::Fq) -> Seq<u8>;

pub uninterp spec fn scalar_from_seed_of(seed: Seq<u8>) -> midnight_curves::Fq;

pub uninterp spec fn root_pow_of(e: u64) -> midnight_curves::Fq;

pub uninterp spec fn g1_mul_of(p: midnight_curves::G1Affine, s: midnight_curves::Fq) -> midnight_curves::G1Affine;

pub uninterp spec fn g1_add_of(p: midnight_curves::G1Affine, q: midnight_curves::G1Affine) -> midnight_curves::G1Affine;

pub uninterp spec fn g1_bytes_of(p: midnight_curves::G1Affine) -> Seq<u8>;

pub uninterp spec fn g1_is_identity_of(p: midnight_curves::G1Affine) -> bool;

pub uninterp spec fn g1_is_generator_of(p: midnight_curves::G1Affine) -> bool;

pub uninterp spec fn g2_mul_of(p: midnight_curves::G2Affine, s: midnight_curves::Fq) -> midnight_curves::G2Affine;

pub uninterp spec fn g2_bytes_of(p: midnight_curves::G2Affine) -> Seq<u8>;

pub uninterp spec fn g2_is_identity_of(p: midnight_curves::G2Affine) -> bool;

pub uninterp spec fn g2_is_generator_of(p: midnight_curves::G2Affine) -> bool;

pub uninterp spec fn pairing_of(p: midnight_curves::G1Affine, q: midnight_curves::G2Affine) -> midnight_curves::Gt;

pub uninterp spec fn msm_of(scalars: Seq<midnight_curves::Fq>, points: Seq<midnight_curves::G1Affine>) -> midnight_curves::G1Affine;

pub uninterp spec fn fft_scalars_of(values: Seq<midnight_curves::Fq>, omega: midnight_curves::Fq, log_n: u32) -> Seq<midnight_curves::Fq>;

pub uninterp spec fn fft_g1_of(points: Seq<midnight_curves::G1Affine>, omega: midnight_curves::Fq, log_n: u32) -> Seq<midnight_curves::G1Affine>;

// ---------------------------------------------------------------------------
// Fixed-width encodings.  The raw encodings produced by the library always
// have these widths, so padding is the identity on every actual result; the
// padded forms give the specifications a width they can compute with.
// ---------------------------------------------------------------------------

/// `s` truncated or zero-padded to exactly `n` bytes.
pub open spec fn fit_width(s: Seq<u8>, n: nat) -> Seq<u8> {
    Seq::new(n, |i: int| if 0 <= i < s.len() { s[i] } else { 0u8 })
}

/// The 96-byte raw uncompressed encoding of a G1 point.
pub open spec fn g1_enc(p: midnight_curves::G1Affine) -> Seq<u8> {
    fit_width(g1_bytes_of(p), 96)
}

/// The 192-byte raw uncompressed encoding of a G2 point.
pub open spec fn g2_enc(p: midnight_curves::G2Affine) -> Seq<u8> {
    fit_width(g2_bytes_of(p), 192)
}

/// The 32-byte big-endian encoding of a scalar.
pub open spec fn scalar_enc(s: midnight_curves::Fq) -> Seq<u8> {
    fit_width(scalar_bytes_of(s), 32)
}

// ---------------------------------------------------------------------------
// Scalar operations.
// ---------------------------------------------------------------------------

/// Relies on `Fq::from(u64)`: embeds a small integer into the scalar field.
#[verifier::external_body]
pub(crate) fn scalar_from_u64(n: u64) -> (r: midnight_curves::Fq)
    ensures
        r == scalar_from_u64_of(n),
{
    midnight_curves::Fq::from(n)
}

/// Relies on `Add for Fq`: field addition.
#[verifier::external_body]
pub(crate) fn scalar_add(a: &midnight_curves::Fq, b: &midnight_curves::Fq) -> (r: midnight_curves::Fq)
    ensures
        r == scalar_add_of(*a, *b),
{
    a + b
}

/// Relies on `Mul for Fq`: field multiplication.
#[verifier::external_body]
pub(crate) fn scalar_mul(a: &midnight_curves::Fq, b: &midnight_curves::Fq) -> (r: midnight_curves::Fq)
    ensures
        r == scalar_mul_of(*a, *b),
{
    a * b
}

/// Relies on `PartialEq for Fq`: equality of field elements.
#[verifier::external_body]
pub(crate) fn scalar_eq(a: &midnight_curves::Fq, b: &midnight_curves::Fq) -> (r: bool)
    ensures
        r == (a == b),
{
    a == b
}

/// Relies on `Fq::from_uniform_bytes`: wide reduction of 64 bytes modulo `r`.
#[verifier::external_body]
pub(crate) fn scalar_from_wide(bytes: &[u8]) -> (r: midnight_curves::Fq)
    requires
        bytes@.len() == 64,
    ensures
        r == scalar_from_wide_of(bytes@),
{
    let arr: [u8; 64] = bytes.try_into().unwrap();
    midnight_curves::Fq::from_uniform_bytes(&arr)
}

/// Relies on `Fq::to_bytes_be`: the canonical 32-byte big-endian encoding.
#[verifier::external_body]
pub(crate) fn scalar_to_bytes_be(s: &midnight_curves::Fq) -> (r: Vec<u8>)
    ensures
        r@ == scalar_bytes_of(*s),
        r@ == scalar_enc(*s),
{
    s.to_bytes_be().to_vec()
}

/// Relies on `Fq::from_bytes_be`: accepts the canonical big-endian encoding
/// of a field element and returns that element.
#[verifier::external_body]
fn scalar_decode_be_raw(bytes: &[u8]) -> (r: Option<midnight_curves::Fq>)
    requires
        bytes@.len() == 32,
    ensures
        forall|s: midnight_curves::Fq| bytes@ == scalar_enc(s) ==> r == Some(s),
{
    let arr: [u8; 32] = bytes.try_into().unwrap();
    Option::<midnight_curves::Fq>::from(midnight_curves::Fq::from_bytes_be(&arr))
}

/// Strict big-endian scalar decoding: accepts exactly the canonical 32-byte
/// encodings, checked by re-encoding the decoded element.
pub(crate) fn scalar_from_bytes_be(bytes: &[u8]) -> (r: Option<midnight_curves::Fq>)
    requires
        bytes@.len() == 32,
    ensures
        forall|s: midnight_curves::Fq| bytes@ == scalar_enc(s) ==> r == Some(s),
        r matches Some(s) ==> bytes@ == scalar_enc(s),
{
    match scalar_decode_be_raw(bytes) {
        Some(s) => {
            let enc = scalar_to_bytes_be(&s);
            if crate::utils::bytes_eq(bytes, enc.as_slice()) {
                Some(s)
            } else {
                None
            }
        },
        None => None,
    }
}

/// Relies on `Fq::random` with the operating system's RNG: an unpredictable
/// scalar.  Nothing is promised of the value; the call panics if the
/// operating system's RNG fails.
#[verifier::external_body]
pub(crate) fn random_scalar() -> midnight_curves::Fq {
    midnight_curves::Fq::random(rand_core::OsRng)
}

/// Relies on `ChaCha20Rng::from_seed` and `Fq::random`: the scalar drawn from
/// a ChaCha20 stream is a deterministic function of the 32-byte seed.
#[verifier::external_body]
pub(crate) fn scalar_from_seed(seed: &[u8]) -> (r: midnight_curves::Fq)
    requires
        seed@.len() == 32,
    ensures
        r == scalar_from_seed_of(seed@),
{
    let arr: [u8; 32] = seed.try_into().unwrap();
    midnight_curves::Fq::random(rand_chacha::ChaCha20Rng::from_seed(arr))
}

/// Relies on `Fq::S`: the two-adicity of the BLS12-381 scalar field, defined
/// by the library as 32.
#[verifier::external_body]
pub(crate) fn two_adicity() -> (r: u32)
    ensures
        r == 32,
{
    midnight_curves::Fq::S
}

/// Relies on `Fq::ROOT_OF_UNITY` and `Field::pow`: the fixed primitive
/// 2^32-th root of unity raised to the given power.
#[verifier::external_body]
pub(crate) fn root_of_unity_pow(e: u64) -> (r: midnight_curves::Fq)
    ensures
        r == root_pow_of(e),
{
    midnight_curves::Fq::ROOT_OF_UNITY.pow([e])
}

// ---------------------------------------------------------------------------
// G1 operations.
// ---------------------------------------------------------------------------

/// Relies on `Mul<&Fq> for &G1Affine` and `Curve::to_affine`: scalar
/// multiplication in G1.
#[verifier::external_body]
pub(crate) fn g1_mul(p: &midnight_curves::G1Affine, s: &midnight_curves::Fq) -> (r: midnight_curves::G1Affine)
    ensures
        r == g1_mul_of(*p, *s),
{
    (p * s).to_affine()
}

/// Relies on `Add for G1Projective` and `Curve::to_affine`: point addition.
#[verifier::external_body]
pub(crate) fn g1_add(p: &midnight_curves::G1Affine, q: &midnight_curves::G1Affine) -> (r: midnight_curves::G1Affine)
    ensures
        r == g1_add_of(*p, *q),
{
    (midnight_curves::G1Projective::from(p) + q).to_affine()
}

/// Relies on `PartialEq for G1Affine`: equality of affine points.
#[verifier::external_body]
pub(crate) fn g1_eq(p: &midnight_curves::G1Affine, q: &midnight_curves::G1Affine) -> (r: bool)
    ensures
        r == (p == q),
{
    p == q
}

/// Relies on `PrimeCurveAffine::is_identity`: whether the point is the
/// identity of G1.
#[verifier::external_body]
pub(crate) fn g1_is_identity(p: &midnight_curves::G1Affine) -> (r: bool)
    ensures
        r == g1_is_identity_of(*p),
{
    bool::from(p.is_identity())
}

/// Relies on `PrimeCurveAffine::generator` and `PartialEq for G1Affine`:
/// whether the point is the fixed generator of G1.
#[verifier::external_body]
pub(crate) fn g1_is_generator(p: &midnight_curves::G1Affine) -> (r: bool)
    ensures
        r == g1_is_generator_of(*p),
{
    *p == midnight_curves::G1Affine::generator()
}

/// Relies on `SerdeObject::to_raw_bytes` for `G1Affine`: the 96-byte raw
/// uncompressed encoding.
#[verifier::external_body]
pub(crate) fn g1_to_bytes(p: &midnight_curves::G1Affine) -> (r: Vec<u8>)
    ensures
        r@ == g1_bytes_of(*p),
        r@ == g1_enc(*p),
{
    p.to_raw_bytes()
}

/// Relies on `SerdeObject::from_raw_bytes` for `G1Affine`: decoding the raw
/// uncompressed encoding of a point yields that point back.
#[verifier::external_body]
fn g1_decode_raw(bytes: &[u8]) -> (r: Option<midnight_curves::G1Affine>)
    requires
        bytes@.len() == 96,
    ensures
        forall|p: midnight_curves::G1Affine| bytes@ == g1_enc(p) ==> r == Some(p),
{
    midnight_curves::G1Affine::from_raw_bytes(bytes)
}

/// Strict G1 decoding: accepts exactly the 96-byte raw uncompressed
/// encodings, checked by re-encoding the decoded point.  On success the
/// input bytes are the encoding of the returned point.
pub fn read_g1_point(bytes: &[u8]) -> (r: Option<midnight_curves::G1Affine>)
    requires
        bytes@.len() == 96,
    ensures
        forall|p: midnight_curves::G1Affine| bytes@ == g1_enc(p) ==> r == Some(p),
        r matches Some(p) ==> bytes@ == g1_enc(p),
{
    match g1_decode_raw(bytes) {
        Some(p) => {
            let enc = g1_to_bytes(&p);
            if crate::utils::bytes_eq(bytes, enc.as_slice()) {
                Some(p)
            } else {
                None
            }
        },
        None => None,
    }
}

/// Relies on `msm_best`: the multi-scalar multiplication
/// `sum_i scalars[i] * points[i]`, converted to affine form.
#[verifier::external_body]
pub(crate) fn msm(scalars: &[midnight_curves::Fq], points: &[midnight_curves::G1Affine]) -> (r: midnight_curves::G1Affine)
    requires
        scalars@.len() == points@.len(),
        scalars@.len() >= 1,
    ensures
        r == msm_of(scalars@, points@),
{
    midnight_curves::msm::msm_best(scalars, points).to_affine()
}

/// Relies on `best_fft` over G1: the radix-2 transform of the points by the
/// scalar twiddle `omega`, a deterministic function of its inputs.
#[verifier::external_body]
pub(crate) fn fft_g1(points: Vec<midnight_curves::G1Affine>, omega: &midnight_curves::Fq, log_n: u32) -> (r: Vec<midnight_curves::G1Affine>)
    requires
        points@.len() == pow2(log_n as nat),
    ensures
        r@ == fft_g1_of(points@, *omega, log_n),
        r@.len() == points@.len(),
{
    let mut proj: Vec<midnight_curves::G1Projective> =
        points.iter().map(midnight_curves::G1Projective::from).collect();
    midnight_curves::fft::best_fft(&mut proj, *omega, log_n);
    proj.iter().map(|p| p.to_affine()).collect()
}

/// Relies on `best_fft` over the scalar field: the in-place radix-2 transform
/// of the coefficients by the twiddle `omega`.
#[verifier::external_body]
pub(crate) fn fft_scalars(values: &mut Vec<midnight_curves::Fq>, omega: &midnight_curves::Fq, log_n: u32)
    requires
        old(values)@.len() == pow2(log_n as nat),
    ensures
        final(values)@ == fft_scalars_of(old(values)@, *omega, log_n),
        final(values)@.len() == old(values)@.len(),
{
    midnight_curves::fft::best_fft(values, *omega, log_n);
}

// ---------------------------------------------------------------------------
// G2 operations.
// ---------------------------------------------------------------------------

/// Relies on `Mul<&Fq> for &G2Affine` and `Curve::to_affine`: scalar
/// multiplication in G2.
#[verifier::external_body]
pub(crate) fn g2_mul(p: &midnight_curves::G2Affine, s: &midnight_curves::Fq) -> (r: midnight_curves::G2Affine)
    ensures
        r == g2_mul_of(*p, *s),
{
    (p * s).to_affine()
}

/// Relies on `PartialEq for G2Affine`: equality of affine points.
#[verifier::external_body]
pub(crate) fn g2_eq(p: &midnight_curves::G2Affine, q: &midnight_curves::G2Affine) -> (r: bool)
    ensures
        r == (p == q),
{
    p == q
}

/// Relies on `PrimeCurveAffine::is_identity`: whether the point is the
/// identity of G2.
#[verifier::external_body]
pub(crate) fn g2_is_identity(p: &midnight_curves::G2Affine) -> (r: bool)
    ensures
        r == g2_is_identity_of(*p),
{
    bool::from(p.is_identity())
}

/// Relies on `PrimeCurveAffine::generator` and `PartialEq for G2Affine`:
/// whether the point is the fixed generator of G2.
#[verifier::external_body]
pub(crate) fn g2_is_generator(p: &midnight_curves::G2Affine) -> (r: bool)
    ensures
        r == g2_is_generator_of(*p),
{
    *p == midnight_curves::G2Affine::generator()
}

/// Relies on `SerdeObject::to_raw_bytes` for `G2Affine`: the 192-byte raw
/// uncompressed encoding.
#[verifier::external_body]
pub(crate) fn g2_to_bytes(p: &midnight_curves::G2Affine) -> (r: Vec<u8>)
    ensures
        r@ == g2_bytes_of(*p),
        r@ == g2_enc(*p),
{
    p.to_raw_bytes()
}

/// Relies on `SerdeObject::from_raw_bytes` for `G2Affine`: decoding the raw
/// uncompressed encoding of a point yields that point back.
#[verifier::external_body]
fn g2_decode_raw(bytes: &[u8]) -> (r: Option<midnight_curves::G2Affine>)
    requires
        bytes@.len() == 192,
    ensures
        forall|p: midnight_curves::G2Affine| bytes@ == g2_enc(p) ==> r == Some(p),
{
    midnight_curves::G2Affine::from_raw_bytes(bytes)
}

/// Strict G2 decoding: accepts exactly the 192-byte raw uncompressed
/// encodings, checked by re-encoding the decoded point.  On success the
/// input bytes are the encoding of the returned point.
pub fn read_g2_point(bytes: &[u8]) -> (r: Option<midnight_curves::G2Affine>)
    requires
        bytes@.len() == 192,
    ensures
        forall|p: midnight_curves::G2Affine| bytes@ == g2_enc(p) ==> r == Some(p),
        r matches Some(p) ==> bytes@ == g2_enc(p),
{
    match g2_decode_raw(bytes) {
        Some(p) => {
            let enc = g2_to_bytes(&p);
            if crate::utils::bytes_eq(bytes, enc.as_slice()) {
                Some(p)
            } else {
                None
            }
        },
        None => None,
    }
}

// ---------------------------------------------------------------------------
// Pairing.
// ---------------------------------------------------------------------------

/// Relies on `bls12_381::pairing`: the bilinear map into Gt.
#[verifier::external_body]
pub(crate) fn pairing_points(p: &midnight_curves::G1Affine, q: &midnight_curves::G2Affine) -> (r: midnight_curves::Gt)
    ensures
        r == pairing_of(*p, *q),
{
    midnight_curves::bls12_381::pairing(p, q)
}

/// Relies on `PartialEq for Gt`: equality of pairing results.
#[verifier::external_body]
pub(crate) fn gt_eq(a: &midnight_curves::Gt, b: &midnight_curves::Gt) -> (r: bool)
    ensures
        r == (a == b),
{
    a == b
}

} // verus!
