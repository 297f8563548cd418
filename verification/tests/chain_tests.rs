//! Tests of the Schnorr proofs, the update-proof serialization, and the
//! chain-of-updates verifier.

use blake2::Digest;
use ff::{Field, FromUniformBytes};
use group::prime::PrimeCurveAffine;
use group::Curve;
use midnight_curves::serde_traits::SerdeObject;
use midnight_curves::{Fq, G1Affine};
use srs::chain::verify_chain;
use srs::schnorr::{SchnorrProof, UpdateProof};

fn scaled(base: &G1Affine, s: u64) -> G1Affine {
    (base * &Fq::from(s)).to_affine()
}

#[test]
fn schnorr_proof_verifies() {
    let x = Fq::random(rand_core::OsRng);
    let g = G1Affine::generator();
    let h = (g * &x).to_affine();
    let proof = SchnorrProof::prove(g, h, &x);
    assert!(proof.verify(g, h));
}

#[test]
fn schnorr_proof_tamper_fails() {
    let x = Fq::random(rand_core::OsRng);
    let g = G1Affine::generator();
    let h = (g * &x).to_affine();
    let proof = SchnorrProof::prove(g, h, &x);

    // Tampered statement: wrong base or wrong target point.
    assert!(!proof.verify(h, g));
    assert!(!proof.verify(g, (g * &Fq::from(2u64)).to_affine()));

    // Tampered commitment.
    let bad_a = SchnorrProof((proof.0 * &Fq::from(2u64)).to_affine(), proof.1);
    assert!(!bad_a.verify(g, h));

    // Tampered response.
    let bad_z = SchnorrProof(proof.0, proof.1 + Fq::ONE);
    assert!(!bad_z.verify(g, h));
}

#[test]
fn schnorr_transcript_matches_convention() {
    // The challenge must be the wide reduction of Blake2b-512 over the raw
    // encodings of (g, h, a), in that order: recompute it independently and
    // check the verification equation of an honestly produced proof.
    let x = Fq::from(5u64);
    let g = G1Affine::generator();
    let h = (g * &x).to_affine();
    let proof = SchnorrProof::prove(g, h, &x);

    let mut transcript: Vec<u8> = Vec::new();
    transcript.extend_from_slice(&g.to_raw_bytes());
    transcript.extend_from_slice(&h.to_raw_bytes());
    transcript.extend_from_slice(&proof.0.to_raw_bytes());
    let digest: [u8; 64] = blake2::Blake2b512::digest(&transcript).into();
    let e = Fq::from_uniform_bytes(&digest);

    let lhs = (g * &proof.1).to_affine();
    let rhs = (h * &e + midnight_curves::G1Projective::from(proof.0)).to_affine();
    assert_eq!(lhs, rhs);
    assert!(proof.verify(g, h));
}

#[test]
fn update_proof_round_trip() {
    let x = Fq::random(rand_core::OsRng);
    let g = G1Affine::generator();
    let h = (g * &x).to_affine();
    let proof = UpdateProof::create(g, h, &x);

    let bytes = proof.to_bytes();
    assert_eq!(bytes.len(), 320);
    // The wire format is a || z || g || h with z in big-endian form.
    assert_eq!(bytes[0..96], proof.schnorr_proof.0.to_raw_bytes()[..]);
    assert_eq!(bytes[96..128], proof.schnorr_proof.1.to_bytes_be()[..]);
    assert_eq!(bytes[128..224], proof.g.to_raw_bytes()[..]);
    assert_eq!(bytes[224..320], proof.h.to_raw_bytes()[..]);
    let parsed = UpdateProof::from_bytes(&bytes).expect("round trip must parse");
    assert_eq!(parsed.g, proof.g);
    assert_eq!(parsed.h, proof.h);
    assert_eq!(parsed.schnorr_proof.0, proof.schnorr_proof.0);
    assert!(parsed.schnorr_proof.1 == proof.schnorr_proof.1);
    assert!(parsed.verify());
}

#[test]
fn update_proof_from_bytes_rejects_bad_length() {
    assert!(UpdateProof::from_bytes(&[0u8; 319]).is_none());
    assert!(UpdateProof::from_bytes(&[0u8; 321]).is_none());
}

fn three_update_chain() -> (G1Affine, G1Affine, Vec<UpdateProof>) {
    let generator = G1Affine::generator();
    // tau_0 = 11, then updates with 2, 3, 5: tau walks 11 -> 22 -> 66 -> 330.
    let start = scaled(&generator, 11);
    let after1 = scaled(&generator, 22);
    let after2 = scaled(&generator, 66);
    let finish = scaled(&generator, 330);
    let proofs = vec![
        UpdateProof::create(start, after1, &Fq::from(2u64)),
        UpdateProof::create(after1, after2, &Fq::from(3u64)),
        UpdateProof::create(after2, finish, &Fq::from(5u64)),
    ];
    (start, finish, proofs)
}

#[test]
fn chain_of_three_updates_verifies() {
    let (start, finish, proofs) = three_update_chain();
    assert!(verify_chain(&start, &finish, &proofs));
}

#[test]
fn chain_with_tampered_link_fails() {
    let (start, finish, mut proofs) = three_update_chain();
    // Replace the second proof's endpoint with an unrelated point.
    proofs[1].h = scaled(&G1Affine::generator(), 999);
    assert!(!verify_chain(&start, &finish, &proofs));
}

#[test]
fn chain_with_wrong_endpoint_fails() {
    let (start, _, proofs) = three_update_chain();
    let wrong_end = scaled(&G1Affine::generator(), 331);
    assert!(!verify_chain(&start, &wrong_end, &proofs));
}

#[test]
fn empty_chain_requires_equal_endpoints() {
    let a = scaled(&G1Affine::generator(), 4);
    let b = scaled(&G1Affine::generator(), 5);
    assert!(verify_chain(&a, &a, &Vec::new()));
    assert!(!verify_chain(&a, &b, &Vec::new()));
}
