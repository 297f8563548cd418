//! Small verified helpers shared across the crate: byte comparison, scalar
//! powers, transcript bytes of point sequences, and transcript hashing.

use vstd::prelude::*;

use crate::curve::{g1_enc, read_g1_point, g1_to_bytes, scalar_from_seed, scalar_from_seed_of, scalar_from_u64, scalar_from_u64_of, scalar_mul, scalar_mul_of};
use crate::digests::{blake2b512, blake2b512_of};
use vstd::arithmetic::power2::{lemma2_to64, lemma2_to64_rest, lemma_pow2_strictly_increases, lemma_pow2_unfold, pow2};
use vstd::slice::slice_subrange;

verus! {

/// Compares two byte slices for equality.
pub fn bytes_eq(a: &[u8], b: &[u8]) -> (r: bool)
    ensures
        r == (a@ == b@),
{
    if a.len() != b.len() {
        assert(a@.len() != b@.len());
        return false;
    }
    let mut i: usize = 0;
    while i < a.len()
        invariant
            i <= a@.len(),
            a@.len() == b@.len(),
            forall|j: int| 0 <= j < i ==> a@[j] == b@[j],
        decreases a@.len() - i,
    {
        if a[i] != b[i] {
            assert(a@ != b@);
            return false;
        }
        i += 1;
    }
    assert(a@ =~= b@);
    true
}

/// `s^i`, written so that the first power is `s` itself.
pub open spec fn scalar_pow_of(s: midnight_curves::Fq, i: nat) -> midnight_curves::Fq
    decreases i,
{
    if i == 0 {
        scalar_from_u64_of(1)
    } else if i == 1 {
        s
    } else {
        scalar_mul_of(scalar_pow_of(s, (i - 1) as nat), s)
    }
}

/// Returns the n powers of the given scalar: 1, s, s^2, ..., s^(n-1).
pub fn powers(s: &midnight_curves::Fq, n: usize) -> (r: Vec<midnight_curves::Fq>)
    ensures
        r@.len() == n,
        forall|i: int| 0 <= i < n ==> r@[i] == scalar_pow_of(*s, i as nat),
{
    let mut r: Vec<midnight_curves::Fq> = Vec::new();
    if n == 0 {
        return r;
    }
    r.push(scalar_from_u64(1));
    if n == 1 {
        return r;
    }
    r.push(*s);
    let mut i: usize = 2;
    while i < n
        invariant
            2 <= i <= n,
            r@.len() == i,
            forall|j: int| 0 <= j < i ==> r@[j] == scalar_pow_of(*s, j as nat),
        decreases n - i,
    {
        let next = scalar_mul(&r[i - 1], s);
        r.push(next);
        i += 1;
    }
    r
}

/// The concatenation of the 96-byte raw encodings of a sequence of G1 points.
pub open spec fn points_bytes(ps: Seq<midnight_curves::G1Affine>) -> Seq<u8>
    decreases ps.len(),
{
    if ps.len() == 0 {
        Seq::empty()
    } else {
        points_bytes(ps.drop_last()) + g1_enc(ps.last())
    }
}

pub proof fn lemma_points_bytes_len(ps: Seq<midnight_curves::G1Affine>)
    ensures
        points_bytes(ps).len() == 96 * ps.len(),
    decreases ps.len(),
{
    if ps.len() > 0 {
        lemma_points_bytes_len(ps.drop_last());
    }
}

/// Each point's encoding sits at its own 96-byte slot of the concatenation.
pub proof fn lemma_points_bytes_index(ps: Seq<midnight_curves::G1Affine>, i: int)
    requires
        0 <= i < ps.len(),
    ensures
        points_bytes(ps).subrange(96 * i, 96 * (i + 1)) == g1_enc(ps[i]),
    decreases ps.len(),
{
    lemma_points_bytes_len(ps);
    lemma_points_bytes_len(ps.drop_last());
    if i == ps.len() - 1 {
        assert(points_bytes(ps).subrange(96 * i, 96 * (i + 1)) =~= g1_enc(ps.last()));
    } else {
        lemma_points_bytes_index(ps.drop_last(), i);
        assert(points_bytes(ps).subrange(96 * i, 96 * (i + 1)) =~= points_bytes(ps.drop_last())
            .subrange(96 * i, 96 * (i + 1)));
    }
}

/// Appends the raw encodings of the given points to `out`.
pub fn append_points_bytes(out: &mut Vec<u8>, points: &[midnight_curves::G1Affine])
    ensures
        final(out)@ == old(out)@ + points_bytes(points@),
{
    let ghost base = out@;
    let mut i: usize = 0;
    proof {
        assert(points@.take(0) =~= Seq::<midnight_curves::G1Affine>::empty());
        assert(out@ =~= base + points_bytes(points@.take(0)));
    }
    while i < points.len()
        invariant
            i <= points@.len(),
            out@ == base + points_bytes(points@.take(i as int)),
        decreases points@.len() - i,
    {
        let enc = g1_to_bytes(&points[i]);
        let ghost before = out@;
        let mut j: usize = 0;
        while j < enc.len()
            invariant
                j <= enc@.len(),
                out@ == before + enc@.take(j as int),
            decreases enc@.len() - j,
        {
            out.push(enc[j]);
            proof {
                assert(out@ =~= before + enc@.take(j as int + 1));
            }
            j += 1;
        }
        proof {
            assert(enc@.take(enc@.len() as int) =~= enc@);
            assert(points@.take(i as int + 1).drop_last() =~= points@.take(i as int));
            assert(points@.take(i as int + 1).last() == points@[i as int]);
            assert(out@ =~= base + points_bytes(points@.take(i as int + 1)));
        }
        i += 1;
    }
    proof {
        assert(points@.take(points@.len() as int) =~= points@);
    }
}

/// Parses a sequence of `n` G1 points from `96 * n` bytes.  Decoding the
/// concatenated encodings of any point sequence yields that sequence back.
pub fn parse_g1_seq(bytes: &[u8], n: usize) -> (r: Option<Vec<midnight_curves::G1Affine>>)
    requires
        bytes@.len() == 96 * n,
    ensures
        forall|ps: Seq<midnight_curves::G1Affine>|
            ps.len() == n && bytes@ == points_bytes(ps) ==> (r matches Some(v) && v@ == ps),
        r matches Some(v) ==> v@.len() == n,
        r matches Some(v) ==> bytes@ == points_bytes(v@),
{
    let mut acc: Vec<midnight_curves::G1Affine> = Vec::new();
    let total = bytes.len();
    let mut i: usize = 0;
    while i < n
        invariant
            i <= n,
            bytes@.len() == 96 * n,
            total == bytes@.len(),
            acc@.len() == i,
            points_bytes(acc@) == bytes@.subrange(0, 96 * i as int),
            forall|ps: Seq<midnight_curves::G1Affine>|
                ps.len() == n && bytes@ == #[trigger] points_bytes(ps) ==> acc@ == ps.take(i as int),
        decreases n - i,
    {
        let chunk = slice_subrange(bytes, i * 96, (i + 1) * 96);
        proof {
            assert forall|ps: Seq<midnight_curves::G1Affine>|
                ps.len() == n && bytes@ == #[trigger] points_bytes(ps) implies chunk@ == g1_enc(
                ps[i as int],
            ) by {
                lemma_points_bytes_index(ps, i as int);
            }
        }
        let pt = match read_g1_point(chunk) {
            Some(pt) => pt,
            None => {
                return None;
            },
        };
        let ghost acc_before = acc@;
        acc.push(pt);
        proof {
            assert(acc@.drop_last() =~= acc_before);
            assert(points_bytes(acc@) =~= bytes@.subrange(0, 96 * (i as int + 1)));
            assert forall|ps: Seq<midnight_curves::G1Affine>|
                ps.len() == n && bytes@ == #[trigger] points_bytes(ps) implies acc@ == ps.take(
                i as int + 1,
            ) by {
                assert(ps.take(i as int + 1) =~= ps.take(i as int).push(ps[i as int]));
            }
        }
        i += 1;
    }
    proof {
        assert(bytes@.subrange(0, 96 * n as int) =~= bytes@);
        assert forall|ps: Seq<midnight_curves::G1Affine>|
            ps.len() == n && bytes@ == #[trigger] points_bytes(ps) implies acc@ == ps by {
            assert(ps.take(n as int) =~= ps);
        }
    }
    Some(acc)
}

/// Appends the given bytes to `out`.
pub fn append_bytes(out: &mut Vec<u8>, b: &[u8])
    ensures
        final(out)@ == old(out)@ + b@,
{
    let ghost base = out@;
    let mut j: usize = 0;
    while j < b.len()
        invariant
            j <= b@.len(),
            out@ == base + b@.take(j as int),
        decreases b@.len() - j,
    {
        out.push(b[j]);
        proof {
            assert(out@ =~= base + b@.take(j as int + 1));
        }
        j += 1;
    }
    proof {
        assert(base + b@.take(b@.len() as int) =~= base + b@);
    }
}

/// The toxic-waste scalar derived from the user's keystroke entropy and the
/// operating system's entropy: both inputs are hashed together with
/// Blake2b-512 and the first 32 digest bytes seed a ChaCha20 stream from
/// which one uniform scalar is drawn.
pub open spec fn toxic_waste_of(user: Seq<u8>, os_bytes: Seq<u8>) -> midnight_curves::Fq {
    scalar_from_seed_of(blake2b512_of(user + os_bytes).take(32))
}

/// Derives the toxic-waste scalar from the two entropy inputs.
pub fn generate_toxic_waste(user_input: &[u8], os_input: &[u8]) -> (r: midnight_curves::Fq)
    ensures
        r == toxic_waste_of(user_input@, os_input@),
{
    let mut data: Vec<u8> = Vec::new();
    append_bytes(&mut data, user_input);
    append_bytes(&mut data, os_input);
    let digest = blake2b512(data.as_slice());
    let seed = slice_subrange(digest.as_slice(), 0, 32);
    proof {
        assert(seed@ =~= blake2b512_of(user_input@ + os_input@).take(32));
    }
    scalar_from_seed(seed)
}

/// Computes `2^k` as a `usize`.
pub fn pow2_usize(k: u32) -> (n: usize)
    requires
        k <= 31,
    ensures
        n == pow2(k as nat),
        n >= 1,
{
    let mut n: usize = 1;
    let mut i: u32 = 0;
    proof {
        lemma2_to64();
    }
    while i < k
        invariant
            i <= k <= 31,
            n == pow2(i as nat),
        decreases k - i,
    {
        proof {
            if (i as nat) < 31 {
                lemma_pow2_strictly_increases(i as nat, 31);
            }
            lemma_pow2_unfold((i + 1) as nat);
            lemma2_to64();
        }
        n = n * 2;
        i += 1;
    }
    n
}

/// Computes `2^k` as a `u64`.
pub fn pow2_u64(k: u32) -> (n: u64)
    requires
        k <= 63,
    ensures
        n == pow2(k as nat),
        n >= 1,
{
    let mut n: u64 = 1;
    let mut i: u32 = 0;
    proof {
        lemma2_to64();
    }
    while i < k
        invariant
            i <= k <= 63,
            n == pow2(i as nat),
        decreases k - i,
    {
        proof {
            if (i as nat) < 63 {
                lemma_pow2_strictly_increases(i as nat, 63);
            }
            lemma_pow2_unfold((i + 1) as nat);
            lemma2_to64();
            lemma2_to64_rest();
        }
        n = n * 2;
        i += 1;
    }
    proof {
        vstd::arithmetic::power2::lemma_pow2_pos(k as nat);
    }
    n
}

/// The generator of the order-`2^k` multiplicative subgroup: the fixed
/// primitive root of unity raised to `2^(S - k)` where `S` is the field's
/// two-adicity.
pub open spec fn domain_omega(k: u32) -> midnight_curves::Fq
    recommends
        k <= 32,
{
    crate::curve::root_pow_of(pow2((32 - k) as nat) as u64)
}

/// Computes `domain_omega(k)` through the curve library.
pub fn compute_domain_omega(k: u32) -> (r: midnight_curves::Fq)
    requires
        1 <= k <= 32,
    ensures
        r == domain_omega(k),
{
    let s_adicity = crate::curve::two_adicity();
    let e = pow2_usize(s_adicity - k);
    proof {
        lemma2_to64();
    }
    crate::curve::root_of_unity_pow(e as u64)
}

/// Hashes the concatenated raw encodings of the given points with
/// Blake2b-512; this is the Fiat–Shamir transcript hash.
pub fn hash_points(points: &[midnight_curves::G1Affine]) -> (r: Vec<u8>)
    ensures
        r@ == blake2b512_of(points_bytes(points@)),
        r@.len() == 64,
{
    let mut data: Vec<u8> = Vec::new();
    append_points_bytes(&mut data, points);
    blake2b512(data.as_slice())
}

} // verus!
