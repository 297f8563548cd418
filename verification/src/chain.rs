//! The chain-of-updates verifier: walks an ordered list of update proofs and
//! checks that it links a known starting G1 point to a claimed final one.

use vstd::prelude::*;

use crate::curve::g1_eq;
use crate::schnorr::{schnorr_checks, UpdateProof};

verus! {

/// A proof chain is valid for `(start, end_pt)` when every proof starts
/// where the previous one ended, no proof is degenerate, every Schnorr
/// proof verifies, and the last proof ends at `end_pt`.
pub open spec fn chain_ok(
    start: midnight_curves::G1Affine,
    proofs: Seq<UpdateProof>,
    end_pt: midnight_curves::G1Affine,
) -> bool {
    &&& forall|i: int| 0 <= i < proofs.len() ==> (#[trigger] proofs[i]).g == (if i == 0 {
        start
    } else {
        proofs[i - 1].h
    })
    &&& forall|i: int| 0 <= i < proofs.len() ==> (#[trigger] proofs[i]).g != proofs[i].h
    &&& forall|i: int| 0 <= i < proofs.len() ==> schnorr_checks(
        (#[trigger] proofs[i]).schnorr_proof,
        proofs[i].g,
        proofs[i].h,
    )
    &&& (if proofs.len() == 0 {
        start == end_pt
    } else {
        proofs[proofs.len() - 1].h == end_pt
    })
}

/// Walks the ordered proofs and accepts exactly the valid chains from
/// `start_g1` to `end_g1`.
#[verifier::rlimit(50)]
pub fn verify_chain(
    start_g1: &midnight_curves::G1Affine,
    end_g1: &midnight_curves::G1Affine,
    proofs: &Vec<UpdateProof>,
) -> (r: bool)
    ensures
        r == chain_ok(*start_g1, proofs@, *end_g1),
{
    let mut g = *start_g1;
    let n = proofs.len();
    let mut i: usize = 0;
    while i < n
        invariant
            i <= n,
            n == proofs@.len(),
            g == (if i == 0 {
                *start_g1
            } else {
                proofs@[i as int - 1].h
            }),
            forall|j: int| 0 <= j < i ==> (#[trigger] proofs@[j]).g == (if j == 0 {
                *start_g1
            } else {
                proofs@[j - 1].h
            }),
            forall|j: int| 0 <= j < i ==> (#[trigger] proofs@[j]).g != proofs@[j].h,
            forall|j: int| 0 <= j < i ==> schnorr_checks(
                (#[trigger] proofs@[j]).schnorr_proof,
                proofs@[j].g,
                proofs@[j].h,
            ),
        decreases n - i,
    {
        let entry = &proofs[i];
        if !g1_eq(&entry.g, &g) {
            return false;
        }
        if g1_eq(&entry.g, &entry.h) {
            return false;
        }
        if !entry.verify() {
            return false;
        }
        g = entry.h;
        i += 1;
    }
    g1_eq(&g, end_g1)
}

/// A chain with a broken link is rejected: if some proof does not start
/// where the previous one ended (or, for the first proof, at `start`), the
/// chain is invalid for every claimed endpoint.
pub proof fn lemma_broken_link_rejected(
    start: midnight_curves::G1Affine,
    proofs: Seq<UpdateProof>,
    end_pt: midnight_curves::G1Affine,
    i: int,
)
    requires
        0 <= i < proofs.len(),
        proofs[i].g != (if i == 0 {
            start
        } else {
            proofs[i - 1].h
        }),
    ensures
        !chain_ok(start, proofs, end_pt),
{
}

/// Tampering with the endpoint of a proof that another proof builds on
/// breaks the chain: if `proofs[i].h` is not what `proofs[i + 1]` starts
/// from, the chain is invalid for every claimed endpoint.
pub proof fn lemma_tampered_endpoint_rejected(
    start: midnight_curves::G1Affine,
    proofs: Seq<UpdateProof>,
    end_pt: midnight_curves::G1Affine,
    i: int,
)
    requires
        0 <= i,
        i + 1 < proofs.len(),
        proofs[i].h != proofs[i + 1].g,
    ensures
        !chain_ok(start, proofs, end_pt),
{
    lemma_broken_link_rejected(start, proofs, end_pt, i + 1);
}

} // verus!
