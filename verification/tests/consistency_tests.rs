//! Tests of the dual-basis consistency check, the extended SRS parsing, the
//! file-section comparison, and the legacy ingestion transform.

use ff::{Field, PrimeField};
use group::prime::PrimeCurveAffine;
use group::Curve;
use midnight_curves::serde_traits::SerdeObject;
use midnight_curves::{Fq, G1Affine, G2Affine};
use srs::consistency::{check_matching_sections, ExtendedSRS};
use srs::filecoin::extract_g1_point_from_filecoin_srs;

/// The scalars `1, tau, ..., tau^(n-1)`.
fn tau_powers(tau: Fq, n: usize) -> Vec<Fq> {
    let mut powers = Vec::new();
    let mut p = Fq::ONE;
    for _ in 0..n {
        powers.push(p);
        p *= tau;
    }
    powers
}

/// The scalars `L_i(tau)`: the inverse transform of the tau powers over the
/// order-`n` subgroup, scaled by `1/n`.
fn lagrange_scalars(tau: Fq, k: u32) -> Vec<Fq> {
    let n = 1usize << k;
    let omega = Fq::ROOT_OF_UNITY.pow([1u64 << (Fq::S - k)]);
    let omega_inv = omega.invert().unwrap();
    let n_inv = Fq::from(n as u64).invert().unwrap();
    let mut values = tau_powers(tau, n);
    midnight_curves::fft::best_fft(&mut values, omega_inv, k);
    for v in values.iter_mut() {
        *v *= n_inv;
    }
    values
}

fn points_of(scalars: &[Fq]) -> Vec<G1Affine> {
    scalars.iter().map(|s| (G1Affine::generator() * s).to_affine()).collect()
}

fn build_extended(tau: Fq, k: u32) -> ExtendedSRS {
    let n = 1usize << k;
    let coeff = points_of(&tau_powers(tau, n));
    let lagrange = points_of(&lagrange_scalars(tau, k));
    let mut g2s = [G2Affine::generator(); 2];
    g2s[1] = (G2Affine::generator() * &tau).to_affine();
    ExtendedSRS { g1s_coeff: coeff, g1s_lagrange: lagrange, g2s, k }
}

fn extended_bytes(ext: &ExtendedSRS) -> Vec<u8> {
    let mut bytes = ext.k.to_le_bytes().to_vec();
    for p in &ext.g1s_coeff {
        bytes.extend_from_slice(&p.to_raw_bytes());
    }
    for p in &ext.g1s_lagrange {
        bytes.extend_from_slice(&p.to_raw_bytes());
    }
    bytes.extend_from_slice(&ext.g2s[0].to_raw_bytes());
    bytes.extend_from_slice(&ext.g2s[1].to_raw_bytes());
    bytes
}

#[test]
fn consistency_accepts_correct_lagrange_basis() {
    let ext = build_extended(Fq::from(5u64), 4);
    assert!(ext.check_consistency());
}

#[test]
fn consistency_rejects_perturbed_basis() {
    let mut ext = build_extended(Fq::from(5u64), 4);
    ext.g1s_lagrange[7] = (ext.g1s_lagrange[7] * &Fq::from(2u64)).to_affine();
    assert!(!ext.check_consistency());
}

#[test]
fn extended_srs_round_trip() {
    let ext = build_extended(Fq::from(9u64), 3);
    let bytes = extended_bytes(&ext);
    let parsed = ExtendedSRS::from_bytes(&bytes).expect("round trip must parse");
    assert_eq!(parsed.k, 3);
    assert_eq!(parsed.g1s_coeff, ext.g1s_coeff);
    assert_eq!(parsed.g1s_lagrange, ext.g1s_lagrange);
    assert_eq!(parsed.g2s, ext.g2s);
    assert!(parsed.check_consistency());

    let mut truncated = bytes.clone();
    truncated.pop();
    assert!(ExtendedSRS::from_bytes(&truncated).is_none());
}

#[test]
fn matching_sections_detect_divergence() {
    let tau = Fq::from(21u64);
    let k = 3u32;
    let n = 1usize << k;
    let ext = build_extended(tau, k);
    let ext_bytes = extended_bytes(&ext);

    // The powers-of-tau file: the same G1 section and the same G2 tail.
    let mut pot_bytes: Vec<u8> = Vec::new();
    for p in &ext.g1s_coeff {
        pot_bytes.extend_from_slice(&p.to_raw_bytes());
    }
    pot_bytes.extend_from_slice(&ext.g2s[0].to_raw_bytes());
    pot_bytes.extend_from_slice(&ext.g2s[1].to_raw_bytes());

    assert!(check_matching_sections(&pot_bytes, &ext_bytes, n));

    let mut tampered = pot_bytes.clone();
    tampered[0] ^= 1;
    assert!(!check_matching_sections(&tampered, &ext_bytes, n));
}

#[test]
fn filecoin_extraction_recovers_tau_point() {
    let tau = Fq::from(77u64);
    let k = 3u32;
    // Header: two G1 points and one G2 point that the reader skips.
    let mut bytes: Vec<u8> = Vec::new();
    bytes.extend_from_slice(&G1Affine::generator().to_raw_bytes());
    bytes.extend_from_slice(&G1Affine::generator().to_raw_bytes());
    bytes.extend_from_slice(&G2Affine::generator().to_raw_bytes());
    for p in points_of(&lagrange_scalars(tau, k)) {
        bytes.extend_from_slice(&p.to_raw_bytes());
    }
    let point = extract_g1_point_from_filecoin_srs(&bytes, k).expect("must extract");
    assert_eq!(point, (G1Affine::generator() * &tau).to_affine());

    // A file that is too short yields nothing.
    assert!(extract_g1_point_from_filecoin_srs(&bytes[..bytes.len() - 1], k).is_none());
}
