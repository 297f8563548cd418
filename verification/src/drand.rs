//! The Drand-binding protocol: opening the pre-published commitment to a
//! beacon round, verifying the round's BLS signature, deriving the update
//! scalar from the beacon randomness, and checking that the final update
//! proof used exactly that scalar.

use vstd::prelude::*;

use crate::curve::{g1_eq, g1_mul, g1_mul_of, scalar_from_seed, scalar_from_seed_of};
use crate::digests::{sha256, sha256_of};
use crate::hexcode::{hex_decode, hex_decode_of, hex_decode_ok};
use crate::schnorr::UpdateProof;
use crate::utils::{append_bytes, bytes_eq};
use crate::digests::blake2b512;
use crate::digests::blake2b512_of;
use drand_verify::Pubkey;
use vstd::bytes::{lemma_auto_spec_u64_to_from_le_bytes, spec_u64_to_le_bytes, u64_to_le_bytes};
use vstd::slice::slice_subrange;

verus! {

#[verifier::external_type_specification]
#[verifier::external_body]
pub struct ExG1Pubkey(drand_verify::G1Pubkey);

#[verifier::external_type_specification]
#[verifier::external_body]
pub struct ExInvalidPoint(drand_verify::InvalidPoint);

#[verifier::external_type_specification]
#[verifier::external_body]
pub struct ExVerificationError(drand_verify::VerificationError);

pub uninterp spec fn drand_pubkey_of(data: Seq<u8>) -> Option<drand_verify::G1Pubkey>;

pub uninterp spec fn drand_verify_of(
    pk: drand_verify::G1Pubkey,
    round: u64,
    previous_signature: Seq<u8>,
    signature: Seq<u8>,
) -> Option<bool>;

pub uninterp spec fn drand_randomness_of(signature: Seq<u8>) -> Seq<u8>;

/// Relies on `G1Pubkey::from_variable`: parses a G1 public key from bytes.
/// Whether it succeeds, and with which key, is a deterministic function of
/// the bytes, recorded by `drand_pubkey_of`.
#[verifier::external_body]
pub(crate) fn drand_pubkey_from_bytes(data: &[u8]) -> (r: Result<
    drand_verify::G1Pubkey,
    drand_verify::InvalidPoint,
>)
    ensures
        r matches Ok(pk) ==> drand_pubkey_of(data@) == Some(pk),
        r is Err ==> drand_pubkey_of(data@) is None,
{
    drand_verify::G1Pubkey::from_variable(data)
}

/// Relies on `Pubkey::verify`: checks the round's BLS signature under the
/// given public key.  The outcome, including whether the signature bytes
/// could be read at all, is a deterministic function of the inputs,
/// recorded by `drand_verify_of`.
#[verifier::external_body]
pub(crate) fn drand_verify_round(
    pk: &drand_verify::G1Pubkey,
    round: u64,
    previous_signature: &[u8],
    signature: &[u8],
) -> (r: Result<bool, drand_verify::VerificationError>)
    ensures
        r matches Ok(b) ==> drand_verify_of(*pk, round, previous_signature@, signature@) == Some(
            b,
        ),
        r is Err ==> drand_verify_of(*pk, round, previous_signature@, signature@) is None,
{
    pk.verify(round, previous_signature, signature)
}

/// Relies on `drand_verify::derive_randomness`: the 32-byte randomness of a
/// beacon round, a deterministic function of the round's signature.
#[verifier::external_body]
pub(crate) fn derive_randomness(signature: &[u8]) -> (r: Vec<u8>)
    ensures
        r@ == drand_randomness_of(signature@),
        r@.len() == 32,
{
    drand_verify::derive_randomness(signature).to_vec()
}

/// The message whose SHA-256 digest is the round commitment: the round
/// number as 8 little-endian bytes, zero-padded to 16 bytes, followed by the
/// 16-byte salt.
pub open spec fn commit_message(round: u64, salt: Seq<u8>) -> Seq<u8> {
    spec_u64_to_le_bytes(round) + Seq::new(8, |i: int| 0u8) + salt
}

/// The commitment to a `(round, salt)` pair.
pub open spec fn commitment_of(round: u64, salt: Seq<u8>) -> Seq<u8> {
    sha256_of(commit_message(round, salt))
}

/// Distinct `(round, salt)` pairs produce distinct commitment messages, so a
/// change to either changes the bytes that are hashed.
pub proof fn lemma_commit_message_injective(r1: u64, s1: Seq<u8>, r2: u64, s2: Seq<u8>)
    requires
        s1.len() == 16,
        s2.len() == 16,
        commit_message(r1, s1) == commit_message(r2, s2),
    ensures
        r1 == r2,
        s1 == s2,
{
    lemma_auto_spec_u64_to_from_le_bytes();
    assert(spec_u64_to_le_bytes(r1) =~= commit_message(r1, s1).subrange(0, 8));
    assert(spec_u64_to_le_bytes(r2) =~= commit_message(r2, s2).subrange(0, 8));
    assert(s1 =~= commit_message(r1, s1).subrange(16, 32));
    assert(s2 =~= commit_message(r2, s2).subrange(16, 32));
}

/// Recomputes the commitment for `(round, salt)` and compares it with the
/// provided bytes.
pub fn verify_commitment(round: u64, salt: &[u8], commitment: &[u8]) -> (r: bool)
    requires
        salt@.len() == 16,
    ensures
        r == (commitment@ == commitment_of(round, salt@)),
{
    let mut data = u64_to_le_bytes(round);
    let mut pad: usize = 0;
    while pad < 8
        invariant
            pad <= 8,
            data@ == spec_u64_to_le_bytes(round) + Seq::new(pad as nat, |i: int| 0u8),
        decreases 8 - pad,
    {
        data.push(0);
        proof {
            assert(data@ =~= spec_u64_to_le_bytes(round) + Seq::new(
                pad as nat + 1,
                |i: int| 0u8,
            ));
        }
        pad += 1;
    }
    append_bytes(&mut data, salt);
    proof {
        assert(data@ =~= commit_message(round, salt@));
    }
    let digest = sha256(data.as_slice());
    bytes_eq(commitment, digest.as_slice())
}

/// The 32-byte ChaCha20 seed derived from the beacon randomness and the
/// salt: the Blake2b-512 digest of the raw randomness bytes followed by the
/// raw salt bytes, truncated to 32 bytes.
pub open spec fn drand_seed_of(randomness: Seq<u8>, salt: Seq<u8>) -> Seq<u8> {
    blake2b512_of(randomness + salt).take(32)
}

/// The update scalar derived from the beacon randomness and the salt.
pub open spec fn drand_scalar_of(
    randomness: Seq<u8>,
    salt: Seq<u8>,
) -> midnight_curves::Fq {
    scalar_from_seed_of(drand_seed_of(randomness, salt))
}

/// Derives the update scalar from the beacon randomness and the salt,
/// exactly as the final update derives its toxic waste.
pub fn derive_drand_scalar(randomness: &[u8], salt: &[u8]) -> (r: midnight_curves::Fq)
    ensures
        r == drand_scalar_of(randomness@, salt@),
{
    let mut buffer: Vec<u8> = Vec::new();
    append_bytes(&mut buffer, randomness);
    append_bytes(&mut buffer, salt);
    let digest = blake2b512(buffer.as_slice());
    let seed = slice_subrange(digest.as_slice(), 0, 32);
    proof {
        assert(seed@ =~= drand_seed_of(randomness@, salt@));
    }
    scalar_from_seed(seed)
}

/// Checks that the last update used exactly the given scalar:
/// `last.g * scalar == last.h`.
pub fn check_scalar_binding(last: &UpdateProof, scalar: &midnight_curves::Fq) -> (r: bool)
    ensures
        r == (g1_mul_of(last.g, *scalar) == last.h),
{
    let expected = g1_mul(&last.g, scalar);
    g1_eq(&expected, &last.h)
}

/// The distinct failures of the Drand binding verification.
#[derive(Clone, Copy, Debug, PartialEq, Eq, Structural)]
pub enum DrandError {
    /// The commitment does not open to `(round, salt)`.
    CommitmentMismatch,
    /// The public key is not a well-formed hexadecimal string.
    InvalidPublicKeyHex,
    /// The public key bytes are not a valid G1 point.
    InvalidPublicKeyPoint,
    /// The signature bytes could not be checked at all.
    SignatureUnverifiable,
    /// The BLS signature does not verify for the round.
    SignatureInvalid,
    /// The last update proof does not match the derived scalar.
    BindingMismatch,
}

/// The exact outcome of the signature verification, as a function of its
/// inputs: the public key must be well-formed hexadecimal denoting a valid
/// G1 point, the signature bytes must be readable, and the BLS check must
/// accept; the first failing step names the error.
pub open spec fn signature_outcome(
    round: u64,
    signature: Seq<u8>,
    previous_signature: Seq<u8>,
    public_key_hex: Seq<u8>,
) -> Result<(), DrandError> {
    if !hex_decode_ok(public_key_hex) {
        Err(DrandError::InvalidPublicKeyHex)
    } else {
        match drand_pubkey_of(hex_decode_of(public_key_hex)) {
            Option::None => Err(DrandError::InvalidPublicKeyPoint),
            Option::Some(pk) => match drand_verify_of(
                pk,
                round,
                previous_signature,
                signature,
            ) {
                Option::None => Err(DrandError::SignatureUnverifiable),
                Option::Some(accepted) => if accepted {
                    Ok(())
                } else {
                    Err(DrandError::SignatureInvalid)
                },
            },
        }
    }
}

/// Verifies the round's BLS signature under the hexadecimal public key.
pub fn verify_signature(
    round: u64,
    signature: &[u8],
    previous_signature: &[u8],
    public_key_hex: &[u8],
) -> (r: Result<(), DrandError>)
    ensures
        r == signature_outcome(round, signature@, previous_signature@, public_key_hex@),
{
    let pk_bytes = match hex_decode(public_key_hex) {
        Some(v) => v,
        None => {
            return Err(DrandError::InvalidPublicKeyHex);
        },
    };
    let pk = match drand_pubkey_from_bytes(pk_bytes.as_slice()) {
        Ok(pk) => pk,
        Err(_) => {
            return Err(DrandError::InvalidPublicKeyPoint);
        },
    };
    let outcome = match drand_verify_round(&pk, round, previous_signature, signature) {
        Ok(b) => b,
        Err(_) => {
            return Err(DrandError::SignatureUnverifiable);
        },
    };
    if outcome {
        Ok(())
    } else {
        Err(DrandError::SignatureInvalid)
    }
}

/// The exact outcome of the whole binding verification: the commitment must
/// open to `(round, salt)`, the beacon signature must verify, and the last
/// update proof must match the scalar derived from the beacon randomness
/// and the salt; the first failing step names the error, and success
/// carries the derived scalar.
pub open spec fn binding_outcome(
    round: u64,
    salt: Seq<u8>,
    commitment: Seq<u8>,
    signature: Seq<u8>,
    previous_signature: Seq<u8>,
    public_key_hex: Seq<u8>,
    last_g: midnight_curves::G1Affine,
    last_h: midnight_curves::G1Affine,
) -> Result<midnight_curves::Fq, DrandError> {
    if commitment != commitment_of(round, salt) {
        Err(DrandError::CommitmentMismatch)
    } else {
        match signature_outcome(round, signature, previous_signature, public_key_hex) {
            Result::Err(e) => Err(e),
            Result::Ok(_) => {
                let s = drand_scalar_of(drand_randomness_of(signature), salt);
                if g1_mul_of(last_g, s) == last_h {
                    Ok(s)
                } else {
                    Err(DrandError::BindingMismatch)
                }
            },
        }
    }
}

/// The whole verify phase of the Drand binding, from plain inputs: opens the
/// commitment, verifies the beacon signature, re-derives the update scalar
/// from the beacon randomness and the salt, and checks that the last update
/// proof used exactly that scalar.  Returns the derived scalar on success.
pub fn verify_drand_binding(
    round: u64,
    salt: &[u8],
    commitment: &[u8],
    signature: &[u8],
    previous_signature: &[u8],
    public_key_hex: &[u8],
    last_proof: &UpdateProof,
) -> (r: Result<midnight_curves::Fq, DrandError>)
    requires
        salt@.len() == 16,
    ensures
        r == binding_outcome(
            round,
            salt@,
            commitment@,
            signature@,
            previous_signature@,
            public_key_hex@,
            last_proof.g,
            last_proof.h,
        ),
        r matches Ok(s) ==> s == drand_scalar_of(drand_randomness_of(signature@), salt@)
            && g1_mul_of(last_proof.g, s) == last_proof.h,
{
    if !verify_commitment(round, salt, commitment) {
        return Err(DrandError::CommitmentMismatch);
    }
    match verify_signature(round, signature, previous_signature, public_key_hex) {
        Ok(_) => (),
        Err(e) => {
            return Err(e);
        },
    }
    let randomness = derive_randomness(signature);
    let scalar = derive_drand_scalar(randomness.as_slice(), salt);
    if !check_scalar_binding(last_proof, &scalar) {
        return Err(DrandError::BindingMismatch);
    }
    Ok(scalar)
}

} // verus!
