//! The extended SRS carrying both the monomial and the Lagrange G1 bases,
//! and the probabilistic dual-basis consistency check: committing to a
//! random polynomial in both bases must give the same commitment.

use vstd::prelude::*;

use crate::curve::{
    fft_scalars, fft_scalars_of, g1_eq, g2_enc, read_g2_point, msm, msm_of, random_scalar,
};
use crate::utils::{
    bytes_eq, domain_omega, lemma_points_bytes_len, parse_g1_seq, points_bytes, pow2_usize,
};
use vstd::arithmetic::power2::{lemma2_to64, pow2};
use vstd::bytes::{lemma_auto_spec_u32_to_from_le_bytes, spec_u32_to_le_bytes, u32_from_le_bytes};
use vstd::slice::slice_subrange;

verus! {

/// An extended SRS: `2^k` G1 points in monomial (coefficient) basis, the
/// same count in Lagrange basis, and the two G2 points.
pub struct ExtendedSRS {
    /// G1 points in coefficient (monomial) basis.
    pub g1s_coeff: Vec<midnight_curves::G1Affine>,
    /// G1 points in Lagrange basis.
    pub g1s_lagrange: Vec<midnight_curves::G1Affine>,
    /// `[1]_2, [tau]_2`.
    pub g2s: [midnight_curves::G2Affine; 2],
    /// Log in base 2 of the basis size.
    pub k: u32,
}

/// Well-formedness: the size exponent is within the range the radix-2
/// transform supports and both bases hold `2^k` points.
pub open spec fn ext_wf(s: ExtendedSRS) -> bool {
    &&& 1 <= s.k <= 31
    &&& s.g1s_coeff@.len() == pow2(s.k as nat)
    &&& s.g1s_lagrange@.len() == pow2(s.k as nat)
}

/// The on-disk encoding of an extended SRS: the exponent `k` as 4
/// little-endian bytes, the two G1 bases, then the two G2 points.
pub open spec fn ext_enc(
    k: u32,
    coeff: Seq<midnight_curves::G1Affine>,
    lagrange: Seq<midnight_curves::G1Affine>,
    g2_first: midnight_curves::G2Affine,
    g2_second: midnight_curves::G2Affine,
) -> Seq<u8> {
    spec_u32_to_le_bytes(k) + points_bytes(coeff) + points_bytes(lagrange) + g2_enc(g2_first)
        + g2_enc(g2_second)
}

impl ExtendedSRS {
    /// Parses an extended SRS from its on-disk form.  Decoding the encoding
    /// of any well-formed extended SRS yields it back, and whatever is
    /// accepted is well formed and is the encoding of the returned value.
    pub fn from_bytes(bytes: &[u8]) -> (r: Option<ExtendedSRS>)
        ensures
            forall|
                kk: u32,
                cf: Seq<midnight_curves::G1Affine>,
                lg: Seq<midnight_curves::G1Affine>,
                q0: midnight_curves::G2Affine,
                q1: midnight_curves::G2Affine,
            |
                1 <= kk <= 31 && cf.len() == pow2(kk as nat) && lg.len() == pow2(kk as nat)
                    && bytes@ == ext_enc(kk, cf, lg, q0, q1) ==> (r matches Some(s) && s.k == kk
                    && s.g1s_coeff@ == cf && s.g1s_lagrange@ == lg && s.g2s@[0] == q0
                    && s.g2s@[1] == q1),
            r matches Some(s) ==> ext_wf(s),
            r matches Some(s) ==> bytes@ == ext_enc(
                s.k,
                s.g1s_coeff@,
                s.g1s_lagrange@,
                s.g2s@[0],
                s.g2s@[1],
            ),
    {
        proof {
            lemma_auto_spec_u32_to_from_le_bytes();
        }
        if bytes.len() < 4 {
            return None;
        }
        let header = slice_subrange(bytes, 0, 4);
        let k = u32_from_le_bytes(header);
        proof {
            assert forall|
                kk: u32,
                cf: Seq<midnight_curves::G1Affine>,
                lg: Seq<midnight_curves::G1Affine>,
                q0: midnight_curves::G2Affine,
                q1: midnight_curves::G2Affine,
            |
                bytes@ == ext_enc(kk, cf, lg, q0, q1) implies k == kk by {
                assert(header@ =~= spec_u32_to_le_bytes(kk));
            }
        }
        if k < 1 || k > 31 {
            return None;
        }
        let n = pow2_usize(k);
        proof {
            lemma2_to64();
        }
        let expected: u64 = 4 + 192 * (n as u64) + 384;
        if bytes.len() as u64 != expected {
            proof {
                assert forall|
                    kk: u32,
                    cf: Seq<midnight_curves::G1Affine>,
                    lg: Seq<midnight_curves::G1Affine>,
                    q0: midnight_curves::G2Affine,
                    q1: midnight_curves::G2Affine,
                |
                    1 <= kk <= 31 && cf.len() == pow2(kk as nat) && lg.len() == pow2(kk as nat)
                        && bytes@ == ext_enc(kk, cf, lg, q0, q1) implies false by {
                    lemma_points_bytes_len(cf);
                    lemma_points_bytes_len(lg);
                }
            }
            return None;
        }
        let coeff_bytes = slice_subrange(bytes, 4, 4 + 96 * n);
        let lagrange_bytes = slice_subrange(bytes, 4 + 96 * n, 4 + 192 * n);
        proof {
            assert forall|
                kk: u32,
                cf: Seq<midnight_curves::G1Affine>,
                lg: Seq<midnight_curves::G1Affine>,
                q0: midnight_curves::G2Affine,
                q1: midnight_curves::G2Affine,
            |
                1 <= kk <= 31 && cf.len() == pow2(kk as nat) && lg.len() == pow2(kk as nat)
                    && bytes@ == ext_enc(kk, cf, lg, q0, q1) implies coeff_bytes@ == points_bytes(
                cf,
            ) && lagrange_bytes@ == points_bytes(lg) && bytes@.subrange(
                4 + 192 * n as int,
                4 + 192 * n as int + 192,
            ) == g2_enc(q0) && bytes@.subrange(
                4 + 192 * n as int + 192,
                4 + 192 * n as int + 384,
            ) == g2_enc(q1) by {
                lemma_points_bytes_len(cf);
                lemma_points_bytes_len(lg);
                assert(coeff_bytes@ =~= points_bytes(cf));
                assert(lagrange_bytes@ =~= points_bytes(lg));
                assert(bytes@.subrange(4 + 192 * n as int, 4 + 192 * n as int + 192) =~= g2_enc(
                    q0,
                ));
                assert(bytes@.subrange(
                    4 + 192 * n as int + 192,
                    4 + 192 * n as int + 384,
                ) =~= g2_enc(q1));
            }
        }
        let g1s_coeff = match parse_g1_seq(coeff_bytes, n) {
            Some(v) => v,
            None => {
                return None;
            },
        };
        let g1s_lagrange = match parse_g1_seq(lagrange_bytes, n) {
            Some(v) => v,
            None => {
                return None;
            },
        };
        let q0 = match read_g2_point(slice_subrange(bytes, 4 + 192 * n, 4 + 192 * n + 192)) {
            Some(q) => q,
            None => {
                return None;
            },
        };
        let q1 = match read_g2_point(slice_subrange(bytes, 4 + 192 * n + 192, 4 + 192 * n + 384)) {
            Some(q) => q,
            None => {
                return None;
            },
        };
        let parsed = ExtendedSRS { g1s_coeff, g1s_lagrange, g2s: [q0, q1], k };
        proof {
            assert(parsed.g2s@[0] == q0);
            assert(parsed.g2s@[1] == q1);
            assert(header@ =~= spec_u32_to_le_bytes(k));
            assert(bytes@ =~= ext_enc(
                parsed.k,
                parsed.g1s_coeff@,
                parsed.g1s_lagrange@,
                parsed.g2s@[0],
                parsed.g2s@[1],
            ));
        }
        Some(parsed)
    }

    /// The consistency check at an explicit polynomial: the commitment to
    /// `poly` in coefficient form equals the commitment to its evaluations
    /// (the radix-2 transform of `poly`) in Lagrange form.
    pub fn check_consistency_with(&self, poly: &Vec<midnight_curves::Fq>) -> (r: bool)
        requires
            ext_wf(*self),
            poly@.len() == self.g1s_coeff@.len(),
        ensures
            r == (msm_of(poly@, self.g1s_coeff@) == msm_of(
                fft_scalars_of(poly@, domain_omega(self.k), self.k),
                self.g1s_lagrange@,
            )),
    {
        proof {
            vstd::arithmetic::power2::lemma_pow2_strictly_increases(0, self.k as nat);
            lemma2_to64();
        }
        let com_coeff = msm(poly.as_slice(), self.g1s_coeff.as_slice());
        let mut evals: Vec<midnight_curves::Fq> = Vec::new();
        let mut i: usize = 0;
        let n = poly.len();
        while i < n
            invariant
                i <= n,
                n == poly@.len(),
                evals@ == poly@.take(i as int),
            decreases n - i,
        {
            evals.push(poly[i]);
            proof {
                assert(evals@ =~= poly@.take(i as int + 1));
            }
            i += 1;
        }
        proof {
            assert(evals@ =~= poly@);
        }
        let omega = crate::utils::compute_domain_omega(self.k);
        fft_scalars(&mut evals, &omega, self.k);
        let com_lagrange = msm(evals.as_slice(), self.g1s_lagrange.as_slice());
        g1_eq(&com_coeff, &com_lagrange)
    }

    /// Verifies that the Lagrange basis is consistent with the coefficient
    /// basis: a uniformly random polynomial is committed to in coefficient
    /// form and, after an in-place radix-2 transform to its evaluations, in
    /// Lagrange form; the check accepts exactly when the two commitments
    /// coincide for the sampled polynomial.
    pub fn check_consistency(&self) -> (r: bool)
        requires
            ext_wf(*self),
        ensures
            r ==> exists|cs: Seq<midnight_curves::Fq>|
                cs.len() == self.g1s_coeff@.len() && #[trigger] msm_of(cs, self.g1s_coeff@)
                    == msm_of(
                    fft_scalars_of(cs, domain_omega(self.k), self.k),
                    self.g1s_lagrange@,
                ),
            !r ==> exists|cs: Seq<midnight_curves::Fq>|
                cs.len() == self.g1s_coeff@.len() && #[trigger] msm_of(cs, self.g1s_coeff@)
                    != msm_of(
                    fft_scalars_of(cs, domain_omega(self.k), self.k),
                    self.g1s_lagrange@,
                ),
    {
        let n = self.g1s_coeff.len();
        let mut random_poly: Vec<midnight_curves::Fq> = Vec::new();
        let mut i: usize = 0;
        while i < n
            invariant
                i <= n,
                random_poly@.len() == i,
            decreases n - i,
        {
            random_poly.push(random_scalar());
            i += 1;
        }
        let ghost sampled = random_poly@;
        let equal = self.check_consistency_with(&random_poly);
        proof {
            assert(sampled.len() == self.g1s_coeff@.len());
        }
        equal
    }
}

/// The file-level sanity checks between a powers-of-tau file and an extended
/// SRS file holding `n` G1 points per basis: the G1 section of the
/// powers-of-tau file must reappear after the 4-byte header of the extended
/// file, and the trailing G2 sections of the two files must be identical.
pub fn check_matching_sections(pot: &[u8], ext: &[u8], n: usize) -> (r: bool)
    requires
        pot@.len() >= 96 * n,
        pot@.len() >= 384,
        ext@.len() >= 4 + 96 * n,
        ext@.len() >= 384,
    ensures
        r == (pot@.subrange(0, 96 * n as int) == ext@.subrange(4, 4 + 96 * n as int)
            && pot@.subrange(pot@.len() - 384, pot@.len() as int) == ext@.subrange(
            ext@.len() - 384,
            ext@.len() as int,
        )),
{
    let potlen = pot.len();
    let extlen = ext.len();
    proof {
        assert(96 * n <= potlen);
        assert(4 + 96 * n <= extlen);
    }
    let pot_g1 = slice_subrange(pot, 0, 96 * n);
    let ext_g1 = slice_subrange(ext, 4, 4 + 96 * n);
    let g1_match = bytes_eq(pot_g1, ext_g1);
    let pot_tail = slice_subrange(pot, potlen - 384, potlen);
    let ext_tail = slice_subrange(ext, extlen - 384, extlen);
    let g2_match = bytes_eq(pot_tail, ext_tail);
    g1_match && g2_match
}

} // verus!
