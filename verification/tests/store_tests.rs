//! Tests of the proof-store conventions, the hexadecimal codec, and the
//! toxic-waste derivation.

use blake2::Digest;
use ff::Field;
use midnight_curves::Fq;
use rand_core::SeedableRng;
use srs::hexcode::{hex_decode, hex_encode};
use srs::store::{derive_new_path, parse_proof_filename, sort_proof_entries};
use srs::utils::{bytes_eq, generate_toxic_waste, powers};

#[test]
fn proof_filenames_parse() {
    assert_eq!(parse_proof_filename(b"proof0"), Some(0));
    assert_eq!(parse_proof_filename(b"proof10"), Some(10));
    assert_eq!(parse_proof_filename(b"proof007"), Some(7));
    assert_eq!(parse_proof_filename(b"proof"), None);
    assert_eq!(parse_proof_filename(b"proofx1"), None);
    assert_eq!(parse_proof_filename(b"notproof1"), None);
    assert_eq!(parse_proof_filename(b"proof99999999999999999999999999"), None);
}

#[test]
fn proofs_order_numerically_not_lexicographically() {
    // Lexicographic order would put proof10 before proof2.
    let ten = parse_proof_filename(b"proof10").unwrap();
    let two = parse_proof_filename(b"proof2").unwrap();
    let one = parse_proof_filename(b"proof1").unwrap();
    let sorted = sort_proof_entries(vec![(ten, 0), (two, 1), (one, 2)]);
    assert_eq!(sorted, vec![(1, 2), (2, 1), (10, 0)]);
}

#[test]
fn new_paths_follow_the_conventions() {
    let (srs_path, proof_path) = derive_new_path(b"ceremony/srs4", 4);
    assert_eq!(srs_path, b"ceremony/srs5".to_vec());
    assert_eq!(proof_path, b"proofs/proof5".to_vec());

    let (srs_path, proof_path) = derive_new_path(b"srs0", 0);
    assert_eq!(srs_path, b"srs1".to_vec());
    assert_eq!(proof_path, b"proofs/proof1".to_vec());
}

#[test]
fn hex_round_trips() {
    let bytes: Vec<u8> = (0u8..=255).collect();
    let encoded = hex_encode(&bytes);
    assert_eq!(hex_decode(&encoded), Some(bytes));
    assert_eq!(hex_encode(&[0xab, 0x01]), b"ab01".to_vec());
    assert_eq!(hex_decode(b"AB01"), Some(vec![0xab, 0x01]));
    assert_eq!(hex_decode(b"abc"), None);
    assert_eq!(hex_decode(b"zz"), None);
}

#[test]
fn byte_equality_is_exact() {
    assert!(bytes_eq(b"abc", b"abc"));
    assert!(!bytes_eq(b"abc", b"abd"));
    assert!(!bytes_eq(b"abc", b"abcd"));
}

#[test]
fn powers_start_at_one() {
    let two = Fq::from(2u64);
    let ps = powers(&two, 5);
    assert_eq!(ps.len(), 5);
    assert_eq!(ps[0], Fq::ONE);
    assert_eq!(ps[1], two);
    assert_eq!(ps[4], Fq::from(16u64));
}

#[test]
fn toxic_waste_matches_the_documented_pipeline() {
    let user = b"mash the keyboard";
    let os_bytes = [0x5au8; 512];
    let scalar = generate_toxic_waste(user, &os_bytes);

    let mut hasher = blake2::Blake2b512::new();
    hasher.update(user);
    hasher.update(os_bytes);
    let seed: [u8; 32] = hasher.finalize()[0..32].try_into().unwrap();
    let expected = Fq::random(rand_chacha::ChaCha20Rng::from_seed(seed));
    assert_eq!(scalar, expected);

    // Deterministic in its inputs, sensitive to each of them.
    assert_eq!(generate_toxic_waste(user, &os_bytes), scalar);
    assert_ne!(generate_toxic_waste(b"other input", &os_bytes), scalar);
}
