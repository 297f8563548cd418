//! Tests of the Drand binding: commitment opening, signature verification
//! against a recorded mainnet round, scalar derivation, and the end-to-end
//! binding check.

use blake2::Digest;
use ff::Field;
use group::prime::PrimeCurveAffine;
use group::Curve;
use midnight_curves::{Fq, G1Affine};
use rand_core::SeedableRng;
use srs::drand::{
    derive_drand_scalar, verify_commitment, verify_drand_binding, verify_signature, DrandError,
};
use srs::hexcode::{hex_decode, hex_encode};
use srs::schnorr::UpdateProof;

/// Public key of the classic League of Entropy mainnet.
const PK_HEX: &str = "868f005eb8e6e4ca0a47c8a77ceaa5309a47978a7c71bc5cce96366b5d7a569937c529eeda66c7293784a9402801af31";

/// Recorded mainnet round 72785 and its two signatures.
const ROUND: u64 = 72785;
const SIG_HEX: &str = "82f5d3d2de4db19d40a6980e8aa37842a0e55d1df06bd68bddc8d60002e8e959eb9cfa368b3c1b77d18f02a54fe047b80f0989315f83b12a74fd8679c4f12aae86eaf6ab5690b34f1fddd50ee3cc6f6cdf59e95526d5a5d82aaa84fa6f181e42";
const PREV_SIG_HEX: &str = "a609e19a03c2fcc559e8dae14900aaefe517cb55c840f6e69bc8e4f66c8d18e8a609685d9917efbfb0c37f058c2de88f13d297c7e19e0ab24813079efe57a182554ff054c7638153f9b26a60e7111f71a0ff63d9571704905d3ca6df0b031747";

fn unhex(s: &str) -> Vec<u8> {
    hex_decode(s.as_bytes()).expect("valid hex")
}

fn commitment_for(round: u64, salt: &[u8; 16]) -> Vec<u8> {
    let mut data = round.to_le_bytes().to_vec();
    data.resize(16, 0);
    data.extend_from_slice(salt);
    sha2::Sha256::digest(&data).to_vec()
}

#[test]
fn commitment_recomputes_identically() {
    let salt = [7u8; 16];
    let commitment = commitment_for(42, &salt);
    assert!(verify_commitment(42, &salt, &commitment));
    // Recomputing gives the same 32 bytes.
    assert_eq!(commitment, commitment_for(42, &salt));
    assert_eq!(commitment.len(), 32);
}

#[test]
fn commitment_rejects_changed_inputs() {
    let salt = [7u8; 16];
    let commitment = commitment_for(42, &salt);
    assert!(!verify_commitment(43, &salt, &commitment));
    let mut other_salt = salt;
    other_salt[0] ^= 1;
    assert!(!verify_commitment(42, &other_salt, &commitment));
    let mut bad = commitment.clone();
    bad[31] ^= 1;
    assert!(!verify_commitment(42, &salt, &bad));
}

#[test]
fn mainnet_round_signature_verifies() {
    let signature = unhex(SIG_HEX);
    let previous = unhex(PREV_SIG_HEX);
    assert!(verify_signature(ROUND, &signature, &previous, PK_HEX.as_bytes()).is_ok());
    // A different round must not verify under the same signature.
    assert_eq!(
        verify_signature(ROUND + 1, &signature, &previous, PK_HEX.as_bytes()),
        Err(DrandError::SignatureInvalid)
    );
    // A malformed public key is rejected before any curve work.
    assert_eq!(
        verify_signature(ROUND, &signature, &previous, b"zz"),
        Err(DrandError::InvalidPublicKeyHex)
    );
}

#[test]
fn scalar_derivation_is_deterministic() {
    // The beacon randomness is the SHA-256 digest of the round's signature.
    let randomness = sha2::Sha256::digest(&unhex(SIG_HEX)).to_vec();
    let salt = [3u8; 16];
    let first = derive_drand_scalar(&randomness, &salt);
    let second = derive_drand_scalar(&randomness, &salt);
    assert!(first == second);

    // Byte-for-byte reproduction of the derivation pipeline: the seed is
    // Blake2b-512 over the raw randomness bytes followed by the raw salt.
    let mut buffer: Vec<u8> = Vec::new();
    buffer.extend_from_slice(&randomness);
    buffer.extend_from_slice(&salt);
    let digest = blake2::Blake2b512::digest(&buffer);
    let seed: [u8; 32] = digest[0..32].try_into().unwrap();
    let expected = Fq::random(rand_chacha::ChaCha20Rng::from_seed(seed));
    assert!(first == expected);

    // A different salt gives a different scalar.
    let other = derive_drand_scalar(&randomness, &[4u8; 16]);
    assert!(first != other);
}

#[test]
fn invalid_public_key_point_is_reported() {
    let signature = unhex(SIG_HEX);
    let zero_key_hex = hex_encode(&[0u8; 48]);
    assert_eq!(
        verify_signature(ROUND, &signature, &[], &zero_key_hex),
        Err(DrandError::InvalidPublicKeyPoint)
    );
}

#[test]
fn unverifiable_signature_is_reported() {
    // All-zero bytes are not a valid G2 signature point.
    let previous = unhex(PREV_SIG_HEX);
    assert_eq!(
        verify_signature(ROUND, &[0u8; 96], &previous, PK_HEX.as_bytes()),
        Err(DrandError::SignatureUnverifiable)
    );
}

#[test]
fn drand_binding_end_to_end() {
    let signature = unhex(SIG_HEX);
    let previous = unhex(PREV_SIG_HEX);
    let salt = [9u8; 16];
    let commitment = commitment_for(ROUND, &salt);

    // Recompute the beacon randomness independently of the library.
    let randomness = sha2::Sha256::digest(&signature).to_vec();
    let scalar = derive_drand_scalar(&randomness, &salt);
    let g = (G1Affine::generator() * &Fq::from(17u64)).to_affine();
    let h = (g * &scalar).to_affine();
    let last_proof = UpdateProof::create(g, h, &scalar);

    let verdict = verify_drand_binding(
        ROUND,
        &salt,
        &commitment,
        &signature,
        &previous,
        PK_HEX.as_bytes(),
        &last_proof,
    );
    assert!(verdict.is_ok());
    assert!(verdict.unwrap() == scalar);

    // Wrong commitment.
    let bad_commitment = commitment_for(ROUND + 1, &salt);
    assert_eq!(
        verify_drand_binding(
            ROUND,
            &salt,
            &bad_commitment,
            &signature,
            &previous,
            PK_HEX.as_bytes(),
            &last_proof,
        ),
        Err(DrandError::CommitmentMismatch)
    );

    // A proof made with a different scalar is not bound to the round.
    let other = Fq::from(123456u64);
    let unbound = UpdateProof::create(g, (g * &other).to_affine(), &other);
    assert_eq!(
        verify_drand_binding(
            ROUND,
            &salt,
            &commitment,
            &signature,
            &previous,
            PK_HEX.as_bytes(),
            &unbound,
        ),
        Err(DrandError::BindingMismatch)
    );
}
