//! Tests of the SRS core: generation, structural verification, updates, and
//! the on-disk serialization round trip.

use ff::Field;
use group::prime::PrimeCurveAffine;
use group::Curve;
use midnight_curves::{Fq, G1Affine, G2Affine};
use srs::ceremony::{G1_SIZE, SRS};

fn generate_with_tau(n: usize, tau: Fq) -> SRS {
    let mut g1s: Vec<G1Affine> = Vec::new();
    let mut power = Fq::ONE;
    for _ in 0..n {
        g1s.push((G1Affine::generator() * &power).to_affine());
        power *= tau;
    }
    let mut g2s = [G2Affine::generator(); 2];
    g2s[1] = (G2Affine::generator() * &tau).to_affine();
    SRS { g1s, g2s }
}

fn generate(n: usize) -> SRS {
    generate_with_tau(n, Fq::random(rand_core::OsRng))
}

#[test]
fn generate_srs() {
    let srs_value = generate(1 << 12);
    assert!(srs_value.verify_structure());

    let bytes = srs_value.to_bytes();
    let srs_deser = SRS::from_bytes(&bytes).expect("round trip must parse");
    assert_eq!(srs_deser.g1s, srs_value.g1s);
    assert_eq!(srs_deser.g2s, srs_value.g2s);
    assert!(srs_deser.verify_structure());
}

#[test]
fn generate_srs_with_update() {
    let mut srs_value = generate(1 << 10);
    assert!(srs_value.verify_structure());
    let bytes = srs_value.to_bytes();

    let nu = Fq::random(rand_core::OsRng);
    let update_proof = srs_value.update(&nu);

    assert!(srs_value.verify_structure());

    let old_g1_point =
        midnight_curves::serde_traits::SerdeObject::from_raw_bytes(&bytes[G1_SIZE..2 * G1_SIZE])
            .map(|p: G1Affine| p)
            .expect("stored point must parse");
    assert_eq!(old_g1_point, update_proof.g);
    assert!(update_proof.verify());
}

#[test]
fn srs_with_wrong_g1s_case1() {
    let mut srs_value = generate(1 << 10);
    let k = (Fq::random(rand_core::OsRng).to_bytes_be()[31] as usize) % srs_value.g1s.len();
    srs_value.g1s[k] = G1Affine::identity();
    assert!(!srs_value.verify_structure());
}

#[test]
fn srs_with_wrong_g1s_case2() {
    let mut srs_value = generate(1 << 12);
    srs_value.g1s[1] = G1Affine::generator();
    assert!(!srs_value.verify_structure());
}

#[test]
fn srs_with_wrong_g2s_case1() {
    let mut srs_value = generate(1 << 10);
    srs_value.g2s[1] = G2Affine::identity();
    assert!(!srs_value.verify_structure());
}

#[test]
fn srs_with_wrong_g2s_case2() {
    let mut srs_value = generate(1 << 10);
    srs_value.g2s[1] = G2Affine::generator();
    assert!(!srs_value.verify_structure());
}

#[test]
fn malicious_pairing_checks() {
    let rng = rand_core::OsRng;
    let false_lhs_1 = midnight_curves::bls12_381::pairing(
        &G1Affine::identity(),
        &(G2Affine::generator() * &Fq::random(rng)).to_affine(),
    );
    let false_rhs_1 = midnight_curves::bls12_381::pairing(&G1Affine::identity(), &G2Affine::generator());
    println!("Rejection if G1 point is 0: {}", false_lhs_1 == false_rhs_1);

    let false_lhs_2 = midnight_curves::bls12_381::pairing(
        &(G1Affine::generator() * &Fq::random(rng)).to_affine(),
        &G2Affine::identity(),
    );
    let false_rhs_2 = midnight_curves::bls12_381::pairing(
        &(G1Affine::generator() * &Fq::random(rng)).to_affine(),
        &G2Affine::identity(),
    );
    let false_rhs_3 = midnight_curves::bls12_381::pairing(&G1Affine::identity(), &G2Affine::generator());
    println!(
        "Rejection if G1 or G2 point is 0: {}",
        false_lhs_2 == false_rhs_2 && false_lhs_2 == false_rhs_3
    );

    assert_eq!(false_lhs_1, false_rhs_1);
    assert_eq!(false_lhs_2, false_rhs_2);
}

#[test]
fn update_with_known_scalar() {
    let tau = Fq::from(13u64);
    let mut srs_value = generate_with_tau(1 << 12, tau);
    assert!(srs_value.verify_structure());

    let old_g1 = srs_value.g1s[1];
    let old_g2 = srs_value.g2s[1];
    let seven = Fq::from(7u64);
    let update_proof = srs_value.update(&seven);

    assert_eq!(srs_value.g1s[1], (old_g1 * &seven).to_affine());
    assert_eq!(srs_value.g2s[1], (old_g2 * &seven).to_affine());
    assert_eq!(update_proof.g, old_g1);
    assert_eq!(update_proof.h, srs_value.g1s[1]);
    assert!(srs_value.verify_structure());
    assert!(update_proof.verify());
}

#[test]
fn length_check_counts_powers_of_two() {
    let srs_value = generate(1 << 5);
    assert!(srs_value.check_length(5));
    assert!(!srs_value.check_length(4));
    assert!(!srs_value.check_length(6));
    assert!(!srs_value.check_length(64));
}

#[test]
fn extension_check_matches_proof_endpoint() {
    let mut srs_value = generate(1 << 3);
    let nu = Fq::from(5u64);
    let proof = srs_value.update(&nu);
    assert!(srs_value.extends(&proof));
    let other = srs_value.update(&Fq::from(3u64));
    assert!(!srs_value.extends(&proof));
    assert!(srs_value.extends(&other));
}

#[test]
fn srs_from_bytes_rejects_bad_length() {
    let srs_value = generate(1 << 3);
    let mut bytes = srs_value.to_bytes();
    bytes.pop();
    assert!(SRS::from_bytes(&bytes).is_none());
}

#[test]
fn srs_from_bytes_rejects_invalid_point() {
    let srs_value = generate(1 << 3);
    let mut bytes = srs_value.to_bytes();
    // Overwrite the second point's x coordinate with a value above the base
    // field modulus: no longer a valid encoding.
    bytes[G1_SIZE] = 0x1f;
    for b in bytes.iter_mut().skip(G1_SIZE + 1).take(47) {
        *b = 0xff;
    }
    assert!(SRS::from_bytes(&bytes).is_none());
}
