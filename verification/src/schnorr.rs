//! Schnorr proof of knowledge of a discrete logarithm in G1, made
//! non-interactive with the Fiat–Shamir transform over a Blake2b-512
//! transcript, and the update proofs built from it.

use vstd::prelude::*;

use crate::curve::{
    g1_add, g1_add_of, g1_enc, g1_eq, read_g1_point, g1_mul, g1_mul_of, g1_to_bytes, random_scalar,
    scalar_add, scalar_add_of, scalar_enc, scalar_from_bytes_be, scalar_from_wide,
    scalar_from_wide_of, scalar_mul, scalar_mul_of, scalar_to_bytes_be,
};
use crate::digests::blake2b512_of;
use crate::utils::{hash_points, points_bytes};
use vstd::slice::slice_subrange;

verus! {

/// The Fiat–Shamir challenge: the Blake2b-512 digest of the raw encodings of
/// `(g, h, a)`, in that order, reduced into the scalar field by a wide
/// reduction.
pub open spec fn challenge_of(
    g: midnight_curves::G1Affine,
    h: midnight_curves::G1Affine,
    a: midnight_curves::G1Affine,
) -> midnight_curves::Fq {
    scalar_from_wide_of(blake2b512_of(points_bytes(seq![g, h, a])))
}

/// A Schnorr proof `(a, z)`: a commitment point and a response scalar.
pub struct SchnorrProof(pub midnight_curves::G1Affine, pub midnight_curves::Fq);

/// The verification equation of a Schnorr proof against `(g, h)`:
/// `g·z == h·e + a` for the recomputed challenge `e`.
pub open spec fn schnorr_checks(
    p: SchnorrProof,
    g: midnight_curves::G1Affine,
    h: midnight_curves::G1Affine,
) -> bool {
    g1_mul_of(g, p.1) == g1_add_of(g1_mul_of(h, challenge_of(g, h, p.0)), p.0)
}

/// An honestly produced proof for witness `x`: the commitment is `g·r` for
/// some nonce `r` and the response is `r + x·e`.
pub open spec fn schnorr_opening(
    p: SchnorrProof,
    g: midnight_curves::G1Affine,
    h: midnight_curves::G1Affine,
    x: midnight_curves::Fq,
) -> bool {
    exists|r: midnight_curves::Fq|
        p.0 == g1_mul_of(g, r) && p.1 == scalar_add_of(
            r,
            scalar_mul_of(x, challenge_of(g, h, p.0)),
        )
}

/// Computes the Fiat–Shamir challenge for the transcript `(g, h, a)`.
fn compute_challenge(
    g: &midnight_curves::G1Affine,
    h: &midnight_curves::G1Affine,
    a: &midnight_curves::G1Affine,
) -> (e: midnight_curves::Fq)
    ensures
        e == challenge_of(*g, *h, *a),
{
    let mut pts: Vec<midnight_curves::G1Affine> = Vec::new();
    pts.push(*g);
    pts.push(*h);
    pts.push(*a);
    proof {
        assert(pts@ =~= seq![*g, *h, *a]);
    }
    let digest = hash_points(pts.as_slice());
    scalar_from_wide(digest.as_slice())
}

impl SchnorrProof {
    /// Create a proof of knowledge of x such that x * G = H.
    pub fn prove(
        g: midnight_curves::G1Affine,
        h: midnight_curves::G1Affine,
        x: &midnight_curves::Fq,
    ) -> (p: SchnorrProof)
        ensures
            schnorr_opening(p, g, h, *x),
    {
        let r = random_scalar();
        let a = g1_mul(&g, &r);
        let e = compute_challenge(&g, &h, &a);
        let z = scalar_add(&r, &scalar_mul(x, &e));
        let p = SchnorrProof(a, z);
        proof {
            assert(p.0 == g1_mul_of(g, r) && p.1 == scalar_add_of(
                r,
                scalar_mul_of(*x, challenge_of(g, h, p.0)),
            ));
        }
        p
    }

    /// Verify a proof of knowledge of the dlog of H in base G; returns
    /// whether the verification equation holds.
    pub fn verify(
        &self,
        g: midnight_curves::G1Affine,
        h: midnight_curves::G1Affine,
    ) -> (r: bool)
        ensures
            r == schnorr_checks(*self, g, h),
    {
        let e = compute_challenge(&g, &h, &self.0);
        let lhs = g1_mul(&g, &self.1);
        let rhs = g1_add(&g1_mul(&h, &e), &self.0);
        g1_eq(&lhs, &rhs)
    }
}

/// An update proof is a proof of knowledge of the dlog of h in base g, where
/// g is [tau]_1 of the previous SRS and h is [tau']_1 of the new SRS.
pub struct UpdateProof {
    pub g: midnight_curves::G1Affine,
    pub h: midnight_curves::G1Affine,
    pub schnorr_proof: SchnorrProof,
}

/// The 320-byte on-disk encoding of an update proof:
/// `a ‖ z ‖ g ‖ h` with `z` in 32-byte big-endian form.
pub open spec fn update_proof_enc(p: UpdateProof) -> Seq<u8> {
    g1_enc(p.schnorr_proof.0) + scalar_enc(p.schnorr_proof.1) + g1_enc(p.g) + g1_enc(p.h)
}

impl UpdateProof {
    pub fn create(
        g: midnight_curves::G1Affine,
        h: midnight_curves::G1Affine,
        x: &midnight_curves::Fq,
    ) -> (p: UpdateProof)
        ensures
            p.g == g,
            p.h == h,
            schnorr_opening(p.schnorr_proof, g, h, *x),
    {
        UpdateProof { schnorr_proof: SchnorrProof::prove(g, h, x), g, h }
    }

    /// Returns whether the contained Schnorr proof verifies against `(g, h)`.
    pub fn verify(&self) -> (r: bool)
        ensures
            r == schnorr_checks(self.schnorr_proof, self.g, self.h),
    {
        self.schnorr_proof.verify(self.g, self.h)
    }

    /// Serializes the proof into its 320-byte on-disk form.
    pub fn to_bytes(&self) -> (r: Vec<u8>)
        ensures
            r@ == update_proof_enc(*self),
            r@.len() == 320,
    {
        let mut out: Vec<u8> = Vec::new();
        let mut part = g1_to_bytes(&self.schnorr_proof.0);
        out.append(&mut part);
        let mut part = scalar_to_bytes_be(&self.schnorr_proof.1);
        out.append(&mut part);
        let mut part = g1_to_bytes(&self.g);
        out.append(&mut part);
        let mut part = g1_to_bytes(&self.h);
        out.append(&mut part);
        proof {
            assert(out@ =~= update_proof_enc(*self));
        }
        out
    }

    /// Parses a proof from its 320-byte on-disk form.  Decoding the encoding
    /// of any proof yields that proof back, and whatever is accepted is the
    /// encoding of the returned proof.
    pub fn from_bytes(bytes: &[u8]) -> (r: Option<UpdateProof>)
        ensures
            forall|p: UpdateProof| bytes@ == update_proof_enc(p) ==> r == Some(p),
            r matches Some(p) ==> bytes@ == update_proof_enc(p),
    {
        if bytes.len() != 320 {
            proof {
                assert forall|p: UpdateProof| bytes@ == update_proof_enc(p) implies false by {
                    assert(update_proof_enc(p).len() == 320);
                }
            }
            return None;
        }
        let a_bytes = slice_subrange(bytes, 0, 96);
        let z_bytes = slice_subrange(bytes, 96, 128);
        let g_bytes = slice_subrange(bytes, 128, 224);
        let h_bytes = slice_subrange(bytes, 224, 320);
        proof {
            assert forall|p: UpdateProof| bytes@ == update_proof_enc(p) implies bytes@.subrange(
                0,
                96,
            ) == g1_enc(p.schnorr_proof.0) && bytes@.subrange(96, 128) == scalar_enc(
                p.schnorr_proof.1,
            ) && bytes@.subrange(128, 224) == g1_enc(p.g) && bytes@.subrange(224, 320) == g1_enc(
                p.h,
            ) by {
                assert(bytes@.subrange(0, 96) =~= g1_enc(p.schnorr_proof.0));
                assert(bytes@.subrange(96, 128) =~= scalar_enc(p.schnorr_proof.1));
                assert(bytes@.subrange(128, 224) =~= g1_enc(p.g));
                assert(bytes@.subrange(224, 320) =~= g1_enc(p.h));
            }
        }
        let a = match read_g1_point(a_bytes) {
            Some(a) => a,
            None => { return None; },
        };
        let z = match scalar_from_bytes_be(z_bytes) {
            Some(z) => z,
            None => { return None; },
        };
        let g = match read_g1_point(g_bytes) {
            Some(g) => g,
            None => { return None; },
        };
        let h = match read_g1_point(h_bytes) {
            Some(h) => h,
            None => { return None; },
        };
        let parsed = UpdateProof { g, h, schnorr_proof: SchnorrProof(a, z) };
        proof {
            assert(bytes@ =~= update_proof_enc(parsed));
            assert forall|p: UpdateProof| bytes@ == update_proof_enc(p) implies Some(parsed)
                == Some(p) by {
                assert(a == p.schnorr_proof.0);
                assert(z == p.schnorr_proof.1);
                assert(g == p.g);
                assert(h == p.h);
            }
        }
        Some(parsed)
    }
}

} // verus!
