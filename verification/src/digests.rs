//! Trusted interface to the hash functions used by the ceremony: Blake2b-512
//! for transcripts and seed derivation, SHA-256 for the Drand commitment.

use vstd::prelude::*;

use blake2::Digest;

verus! {

pub uninterp spec fn blake2b512_of(data: Seq<u8>) -> Seq<u8>;

pub uninterp spec fn sha256_of(data: Seq<u8>) -> Seq<u8>;

/// Relies on `Blake2b512::digest` of the `blake2` crate: the 64-byte
/// Blake2b-512 digest, a deterministic function of the input bytes.
#[verifier::external_body]
pub(crate) fn blake2b512(data: &[u8]) -> (r: Vec<u8>)
    ensures
        r@ == blake2b512_of(data@),
        r@.len() == 64,
{
    blake2::Blake2b512::digest(data).to_vec()
}

/// Relies on `Sha256::digest` of the `sha2` crate: the 32-byte SHA-256
/// digest, a deterministic function of the input bytes.
#[verifier::external_body]
pub(crate) fn sha256(data: &[u8]) -> (r: Vec<u8>)
    ensures
        r@ == sha256_of(data@),
        r@.len() == 32,
{
    sha2::Sha256::digest(data).to_vec()
}

} // verus!
