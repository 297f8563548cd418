//! The structured reference string: its in-memory form, the structural
//! verifier (batched pairing check), the update protocol, and the on-disk
//! serialization.

use vstd::prelude::*;

use crate::curve::{
    g1_is_generator, g1_is_generator_of, g1_is_identity, g1_is_identity_of, g1_mul, g1_mul_of,
    g2_enc, g2_eq, read_g2_point, g2_is_generator, g2_is_generator_of, g2_is_identity,
    g2_is_identity_of, g2_mul, g2_mul_of, g2_to_bytes, gt_eq, msm, msm_of, pairing_of,
    pairing_points, random_scalar,
};
use crate::schnorr::{schnorr_opening, UpdateProof};
use crate::utils::{
    append_points_bytes, lemma_points_bytes_len, parse_g1_seq, points_bytes, powers, scalar_pow_of,
};
use vstd::arithmetic::div_mod::{lemma_fundamental_div_mod, lemma_mod_multiples_basic};
use vstd::arithmetic::power2::{lemma2_to64, lemma2_to64_rest, lemma_pow2_strictly_increases, pow2};
use vstd::slice::slice_subrange;

verus! {

/// Size in bytes of an uncompressed G1 point.
pub const G1_SIZE: usize = 96;

/// Size in bytes of an uncompressed G2 point.
pub const G2_SIZE: usize = 192;

/// Size in bytes of a big-endian scalar.
pub const SCALAR_SIZE: usize = 32;

/// A structured reference string.
pub struct SRS {
    /// `[1]_1, [tau]_1, ..., [tau^(N-1)]_1`.
    pub g1s: Vec<midnight_curves::G1Affine>,
    /// `[1]_2, [tau]_2`.
    pub g2s: [midnight_curves::G2Affine; 2],
}

/// The on-disk encoding of an SRS: the G1 points in order, then the two G2
/// points, each in raw uncompressed form.
pub open spec fn srs_enc(
    g1s: Seq<midnight_curves::G1Affine>,
    g2_first: midnight_curves::G2Affine,
    g2_second: midnight_curves::G2Affine,
) -> Seq<u8> {
    points_bytes(g1s) + g2_enc(g2_first) + g2_enc(g2_second)
}

/// The deterministic part of the structural check: no G1 point is the
/// identity, the first G1 and G2 points are the generators, and the scaled
/// G2 point is neither the identity nor the generator.
pub open spec fn srs_point_checks(s: SRS) -> bool {
    &&& s.g1s@.len() >= 2
    &&& forall|i: int| 0 <= i < s.g1s@.len() ==> !g1_is_identity_of(#[trigger] s.g1s@[i])
    &&& g1_is_generator_of(s.g1s@[0])
    &&& g2_is_generator_of(s.g2s@[0])
    &&& !g2_is_identity_of(s.g2s@[1])
    &&& s.g2s@[1] != s.g2s@[0]
}

/// The powers `1, rho, ..., rho^(m-1)`.
pub open spec fn pow_seq(rho: midnight_curves::Fq, m: nat) -> Seq<midnight_curves::Fq> {
    Seq::new(m, |i: int| scalar_pow_of(rho, i as nat))
}

/// The batched pairing equation at batching scalar `rho`:
/// `e(sum_i rho^i g1s[i], g2s[1]) == e(sum_i rho^i g1s[i+1], g2s[0])`,
/// both sums ranging over `0 <= i < N-1`.
pub open spec fn srs_pairing_eq_at(s: SRS, rho: midnight_curves::Fq) -> bool {
    pairing_of(
        msm_of(pow_seq(rho, (s.g1s@.len() - 1) as nat), s.g1s@.take(s.g1s@.len() - 1)),
        s.g2s@[1],
    ) == pairing_of(
        msm_of(pow_seq(rho, (s.g1s@.len() - 1) as nat), s.g1s@.skip(1)),
        s.g2s@[0],
    )
}

/// A corrupted SRS fails the deterministic point checks: if some G1 point
/// is the identity, or the scaled G2 point is the identity or equals the
/// G2 generator point, the structural check cannot accept.  Together with
/// the contract of `verify_structure`, which accepts only when
/// `srs_point_checks` holds, such a corruption forces rejection.
pub proof fn lemma_corrupted_srs_rejected(s: SRS, i: int)
    requires
        (0 <= i < s.g1s@.len() && g1_is_identity_of(s.g1s@[i])) || g2_is_identity_of(s.g2s@[1])
            || s.g2s@[1] == s.g2s@[0],
    ensures
        !srs_point_checks(s),
{
}

impl SRS {
    /// The structural check with an explicit batching scalar: all point
    /// checks pass and the batched pairing equation holds at `rho`.
    pub fn verify_structure_with(&self, rho: &midnight_curves::Fq) -> (r: bool)
        ensures
            r == (srs_point_checks(*self) && srs_pairing_eq_at(*self, *rho)),
    {
        let n = self.g1s.len();
        if n < 2 {
            return false;
        }
        let mut i: usize = 0;
        while i < n
            invariant
                i <= n,
                n == self.g1s@.len(),
                forall|j: int| 0 <= j < i ==> !g1_is_identity_of(#[trigger] self.g1s@[j]),
            decreases n - i,
        {
            if g1_is_identity(&self.g1s[i]) {
                return false;
            }
            i += 1;
        }
        if !g1_is_generator(&self.g1s[0]) {
            return false;
        }
        if !g2_is_generator(&self.g2s[0]) {
            return false;
        }
        if g2_is_identity(&self.g2s[1]) {
            return false;
        }
        if g2_eq(&self.g2s[1], &self.g2s[0]) {
            return false;
        }
        let r_powers = powers(rho, n - 1);
        proof {
            assert(r_powers@ =~= pow_seq(*rho, (n - 1) as nat));
        }
        let lhs_points = slice_subrange(self.g1s.as_slice(), 0, n - 1);
        let rhs_points = slice_subrange(self.g1s.as_slice(), 1, n);
        proof {
            assert(lhs_points@ =~= self.g1s@.take(self.g1s@.len() - 1));
            assert(rhs_points@ =~= self.g1s@.skip(1));
        }
        let batched_lhs_g1 = msm(r_powers.as_slice(), lhs_points);
        let batched_rhs_g1 = msm(r_powers.as_slice(), rhs_points);
        let lhs = pairing_points(&batched_lhs_g1, &self.g2s[1]);
        let rhs = pairing_points(&batched_rhs_g1, &self.g2s[0]);
        gt_eq(&lhs, &rhs)
    }

    /// Verifies the SRS structure with a freshly sampled batching scalar.
    /// On success the point checks are known to hold and the pairing
    /// equation held for the sampled scalar; on failure one of them failed.
    pub fn verify_structure(&self) -> (r: bool)
        ensures
            r ==> srs_point_checks(*self),
            r ==> exists|rho: midnight_curves::Fq| srs_pairing_eq_at(*self, rho),
            !r ==> !srs_point_checks(*self) || exists|rho: midnight_curves::Fq|
                !srs_pairing_eq_at(*self, rho),
    {
        let rho = random_scalar();
        self.verify_structure_with(&rho)
    }

    /// Checks that the SRS holds exactly `2^log2_len` G1 points.
    pub fn check_length(&self, log2_len: usize) -> (r: bool)
        ensures
            r == (self.g1s@.len() == pow2(log2_len as nat)),
    {
        let len = self.g1s.len();
        if log2_len >= 64 {
            proof {
                lemma2_to64();
                lemma2_to64_rest();
                if (log2_len as nat) > 64 {
                    lemma_pow2_strictly_increases(64, log2_len as nat);
                }
                assert(len < pow2(64));
            }
            return false;
        }
        let n = crate::utils::pow2_u64(log2_len as u32);
        len as u64 == n
    }

    /// Checks that this SRS correctly extends the given update proof: its
    /// `[tau]_1` point is the proof's endpoint.
    pub fn extends(&self, last_proof: &UpdateProof) -> (r: bool)
        ensures
            r == (self.g1s@.len() >= 2 && self.g1s@[1] == last_proof.h),
    {
        if self.g1s.len() < 2 {
            return false;
        }
        crate::curve::g1_eq(&self.g1s[1], &last_proof.h)
    }

    /// Updates the SRS in place with the toxic waste `nu`: every `[tau^i]_1`
    /// is multiplied by `nu^i` and `[tau]_2` by `nu`.  Returns a proof of
    /// knowledge of `nu` linking the old and new `[tau]_1`.
    pub fn update(&mut self, nu: &midnight_curves::Fq) -> (p: UpdateProof)
        requires
            old(self).g1s@.len() >= 2,
        ensures
            final(self).g1s@.len() == old(self).g1s@.len(),
            final(self).g1s@[0] == old(self).g1s@[0],
            forall|i: int| 1 <= i < old(self).g1s@.len() ==> final(self).g1s@[i] == g1_mul_of(
                old(self).g1s@[i],
                scalar_pow_of(*nu, i as nat),
            ),
            final(self).g2s@[0] == old(self).g2s@[0],
            final(self).g2s@[1] == g2_mul_of(old(self).g2s@[1], *nu),
            p.g == old(self).g1s@[1],
            p.h == final(self).g1s@[1],
            p.h == g1_mul_of(old(self).g1s@[1], *nu),
            schnorr_opening(p.schnorr_proof, p.g, p.h, *nu),
    {
        let n = self.g1s.len();
        let nu_powers = powers(nu, n);
        let old_g1_point = self.g1s[1];
        let mut i: usize = 1;
        while i < n
            invariant
                1 <= i <= n,
                n == self.g1s@.len(),
                n == nu_powers@.len(),
                old(self).g1s@.len() == n,
                self.g2s@ == old(self).g2s@,
                forall|j: int| 0 <= j < n ==> nu_powers@[j] == scalar_pow_of(*nu, j as nat),
                self.g1s@[0] == old(self).g1s@[0],
                forall|j: int| 1 <= j < i ==> self.g1s@[j] == g1_mul_of(
                    old(self).g1s@[j],
                    scalar_pow_of(*nu, j as nat),
                ),
                forall|j: int| i <= j < n ==> self.g1s@[j] == old(self).g1s@[j],
            decreases n - i,
        {
            let updated = g1_mul(&self.g1s[i], &nu_powers[i]);
            self.g1s[i] = updated;
            i += 1;
        }
        let g2_first = self.g2s[0];
        let g2_scaled = g2_mul(&self.g2s[1], nu);
        self.g2s = [g2_first, g2_scaled];
        UpdateProof::create(old_g1_point, self.g1s[1], nu)
    }

    /// Serializes the SRS into its on-disk form.
    pub fn to_bytes(&self) -> (r: Vec<u8>)
        ensures
            r@ == srs_enc(self.g1s@, self.g2s@[0], self.g2s@[1]),
    {
        let mut out: Vec<u8> = Vec::new();
        append_points_bytes(&mut out, self.g1s.as_slice());
        let mut part = g2_to_bytes(&self.g2s[0]);
        out.append(&mut part);
        let mut part = g2_to_bytes(&self.g2s[1]);
        out.append(&mut part);
        proof {
            assert(out@ =~= srs_enc(self.g1s@, self.g2s@[0], self.g2s@[1]));
        }
        out
    }

    /// Parses an SRS from its on-disk form; the number of G1 points is
    /// implied by the total length.  Decoding the encoding of any SRS yields
    /// that SRS back, and whatever is accepted is the encoding of the
    /// returned SRS.
    pub fn from_bytes(bytes: &[u8]) -> (r: Option<SRS>)
        ensures
            forall|ps: Seq<midnight_curves::G1Affine>, q0: midnight_curves::G2Affine, q1: midnight_curves::G2Affine|
                bytes@ == srs_enc(ps, q0, q1) ==> (r matches Some(s) && s.g1s@ == ps
                    && s.g2s@[0] == q0 && s.g2s@[1] == q1),
            r matches Some(s) ==> bytes@ == srs_enc(s.g1s@, s.g2s@[0], s.g2s@[1]),
    {
        let total = bytes.len();
        proof {
            assert forall|ps: Seq<midnight_curves::G1Affine>, q0: midnight_curves::G2Affine, q1: midnight_curves::G2Affine|
                bytes@ == srs_enc(ps, q0, q1) implies bytes@.len() == 96 * ps.len() + 384 by {
                lemma_points_bytes_len(ps);
            }
        }
        if total < 384 || (total - 384) % 96 != 0 {
            proof {
                assert forall|ps: Seq<midnight_curves::G1Affine>, q0: midnight_curves::G2Affine, q1: midnight_curves::G2Affine|
                    bytes@ == srs_enc(ps, q0, q1) implies false by {
                    lemma_mod_multiples_basic(ps.len() as int, 96);
                }
            }
            return None;
        }
        let g1_len = total - 384;
        let n = g1_len / 96;
        proof {
            lemma_fundamental_div_mod(g1_len as int, 96);
        }
        let g1_bytes = slice_subrange(bytes, 0, g1_len);
        let g1s = match parse_g1_seq(g1_bytes, n) {
            Some(v) => v,
            None => {
                proof {
                    assert forall|ps: Seq<midnight_curves::G1Affine>, q0: midnight_curves::G2Affine, q1: midnight_curves::G2Affine|
                        bytes@ == srs_enc(ps, q0, q1) implies false by {
                        lemma_points_bytes_len(ps);
                        assert(g1_bytes@ =~= points_bytes(ps));
                    }
                }
                return None;
            },
        };
        proof {
            assert forall|ps: Seq<midnight_curves::G1Affine>, q0: midnight_curves::G2Affine, q1: midnight_curves::G2Affine|
                bytes@ == srs_enc(ps, q0, q1) implies g1s@ == ps && bytes@.subrange(
                g1_len as int,
                g1_len as int + 192,
            ) == g2_enc(q0) && bytes@.subrange(
                g1_len as int + 192,
                g1_len as int + 384,
            ) == g2_enc(q1) by {
                lemma_points_bytes_len(ps);
                assert(g1_bytes@ =~= points_bytes(ps));
                assert(bytes@.subrange(g1_len as int, g1_len as int + 192) =~= g2_enc(q0));
                assert(bytes@.subrange(g1_len as int + 192, g1_len as int + 384) =~= g2_enc(q1));
            }
        }
        let q0 = match read_g2_point(slice_subrange(bytes, g1_len, g1_len + 192)) {
            Some(q) => q,
            None => {
                return None;
            },
        };
        let q1 = match read_g2_point(slice_subrange(bytes, g1_len + 192, g1_len + 384)) {
            Some(q) => q,
            None => {
                return None;
            },
        };
        let parsed = SRS { g1s, g2s: [q0, q1] };
        proof {
            assert(parsed.g2s@[0] == q0);
            assert(parsed.g2s@[1] == q1);
            assert(bytes@ =~= srs_enc(parsed.g1s@, parsed.g2s@[0], parsed.g2s@[1]));
        }
        Some(parsed)
    }
}

} // verus!
