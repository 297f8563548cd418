//! Legacy ingestion: reading the Lagrange-basis G1 section of an externally
//! produced evaluation-basis SRS file and converting it to the monomial
//! basis with a radix-2 transform in the exponent, to recover `[tau]_1`.

use vstd::prelude::*;

use crate::curve::{fft_g1, fft_g1_of};
use crate::utils::{domain_omega, parse_g1_seq, points_bytes, pow2_usize};
use vstd::arithmetic::power2::{lemma_pow2_strictly_increases, lemma2_to64, pow2};
use vstd::slice::slice_subrange;

verus! {

/// Extracts `[tau]_1` from the bytes of an evaluation-basis SRS file.  The
/// file starts with three points (`[alpha]_1`, `[beta]_1`, `[beta]_2`,
/// together 384 bytes) that are skipped; the next `2^k` G1 points are the
/// Lagrange basis, which the transform carries to the monomial basis, whose
/// point of index 1 is returned.
pub fn extract_g1_point_from_filecoin_srs(bytes: &[u8], k: u32) -> (r: Option<
    midnight_curves::G1Affine,
>)
    requires
        1 <= k <= 31,
    ensures
        bytes@.len() < 384 + 96 * pow2(k as nat) ==> r is None,
        forall|ps: Seq<midnight_curves::G1Affine>|
            ps.len() == pow2(k as nat) && bytes@.len() >= 384 + 96 * ps.len()
                && bytes@.subrange(384, 384 + 96 * ps.len() as int) == points_bytes(ps) ==> r == Some(
                fft_g1_of(ps, domain_omega(k), k)[1],
            ),
{
    let n = pow2_usize(k);
    proof {
        lemma2_to64();
        lemma_pow2_strictly_increases(0, k as nat);
        if (k as nat) < 31 {
            lemma_pow2_strictly_increases(k as nat, 31);
        }
    }
    if bytes.len() < 384 || (bytes.len() - 384) / 96 < n {
        return None;
    }
    let section = slice_subrange(bytes, 384, 384 + 96 * n);
    let points = match parse_g1_seq(section, n) {
        Some(v) => v,
        None => {
            proof {
                assert forall|ps: Seq<midnight_curves::G1Affine>|
                    ps.len() == pow2(k as nat) && bytes@.len() >= 384 + 96 * ps.len()
                        && bytes@.subrange(384, 384 + 96 * ps.len() as int) == points_bytes(ps)
                    implies false by {
                    assert(section@ =~= points_bytes(ps));
                }
            }
            return None;
        },
    };
    proof {
        assert forall|ps: Seq<midnight_curves::G1Affine>|
            ps.len() == pow2(k as nat) && bytes@.len() >= 384 + 96 * ps.len()
                && bytes@.subrange(384, 384 + 96 * ps.len() as int) == points_bytes(ps)
            implies points@ == ps by {
            assert(section@ =~= points_bytes(ps));
        }
    }
    let transformed = fft_g1(points, &crate::utils::compute_domain_omega(k), k);
    Some(transformed[1])
}

} // verus!
