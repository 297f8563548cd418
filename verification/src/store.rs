//! The proof-store conventions: proof files are named `proof<n>` for a
//! decimal `n` and are ordered by that number, never lexicographically; new
//! SRS and proof files are named after the count of existing proofs.

use vstd::prelude::*;

use crate::utils::append_bytes;
use vstd::slice::slice_subrange;

verus! {

/// Whether `s` is a nonempty string of ASCII decimal digits.
pub open spec fn is_digits(s: Seq<u8>) -> bool {
    s.len() > 0 && forall|i: int| 0 <= i < s.len() ==> 48 <= #[trigger] s[i] <= 57
}

/// The number denoted by the digit string `s`.
pub open spec fn digits_val(s: Seq<u8>) -> int
    decreases s.len(),
{
    if s.len() == 0 {
        0
    } else {
        10 * digits_val(s.drop_last()) + s.last() - 48
    }
}

/// The bytes of the file-name prefix `proof`.
pub open spec fn proof_name_prefix() -> Seq<u8> {
    seq![112u8, 114u8, 111u8, 111u8, 102u8]
}

/// The number of a proof file: `Some(n)` exactly when the name is `proof`
/// followed by a nonempty decimal string denoting `n`.
pub open spec fn proof_file_number(name: Seq<u8>) -> Option<int> {
    if name.len() > 5 && name.take(5) == proof_name_prefix() && is_digits(name.skip(5)) {
        Some(digits_val(name.skip(5)))
    } else {
        None
    }
}

pub proof fn lemma_digits_val_nonneg(s: Seq<u8>)
    requires
        forall|i: int| 0 <= i < s.len() ==> 48 <= #[trigger] s[i] <= 57,
    ensures
        digits_val(s) >= 0,
    decreases s.len(),
{
    if s.len() > 0 {
        lemma_digits_val_nonneg(s.drop_last());
    }
}

/// The value of a digit string is at least the value of any of its prefixes.
pub proof fn lemma_digits_val_prefix_le(s: Seq<u8>, j: int)
    requires
        0 <= j <= s.len(),
        forall|i: int| 0 <= i < s.len() ==> 48 <= #[trigger] s[i] <= 57,
    ensures
        digits_val(s.take(j)) <= digits_val(s),
    decreases s.len() - j,
{
    if j < s.len() {
        lemma_digits_val_prefix_le(s, j + 1);
        assert(s.take(j + 1).drop_last() =~= s.take(j));
        assert(forall|i: int| 0 <= i < s.take(j).len() ==> 48 <= #[trigger] s.take(j)[i] <= 57);
        lemma_digits_val_nonneg(s.take(j));
        assert(digits_val(s.take(j + 1)) == 10 * digits_val(s.take(j)) + s[j] - 48);
    } else {
        assert(s.take(j) =~= s);
    }
}

/// Parses a proof file name `proof<n>`; returns the number `n` exactly on
/// well-formed names whose number fits a `usize`.
pub fn parse_proof_filename(name: &[u8]) -> (r: Option<usize>)
    ensures
        proof_file_number(name@) is None ==> r is None,
        proof_file_number(name@) matches Some(v) ==> (if v <= usize::MAX {
            r == Some(v as usize)
        } else {
            r is None
        }),
{
    if name.len() < 6 {
        return None;
    }
    if !(name[0] == 112 && name[1] == 114 && name[2] == 111 && name[3] == 111 && name[4] == 102) {
        proof {
            if name@.take(5) == proof_name_prefix() {
                assert(name@[0] == 112 && name@[1] == 114 && name@[2] == 111 && name@[3] == 111
                    && name@[4] == 102);
            }
        }
        return None;
    }
    proof {
        assert(name@.take(5) =~= proof_name_prefix());
    }
    let ghost rest = name@.skip(5);
    let nlen = name.len();
    let mut val: usize = 0;
    let mut i: usize = 5;
    while i < nlen
        invariant
            5 <= i <= nlen,
            nlen == name@.len(),
            nlen >= 6,
            name@.take(5) == proof_name_prefix(),
            rest == name@.skip(5),
            forall|j: int| 0 <= j < i - 5 ==> 48 <= #[trigger] rest[j] <= 57,
            val == digits_val(rest.take(i - 5)),
        decreases nlen - i,
    {
        let c = name[i];
        if c < 48 || c > 57 {
            proof {
                assert(rest[i - 5] == name@[i as int]);
                assert(!is_digits(rest));
            }
            return None;
        }
        let d = (c - 48) as usize;
        proof {
            assert(rest.take(i - 5 + 1).drop_last() =~= rest.take(i - 5));
            assert(rest.take(i - 5 + 1).last() == name@[i as int]);
        }
        if val > (usize::MAX - d) / 10 {
            proof {
                assert(digits_val(rest.take(i - 5 + 1)) == 10 * val + d);
                assert(digits_val(rest.take(i - 5 + 1)) > usize::MAX);
                if is_digits(rest) {
                    lemma_digits_val_prefix_le(rest, i - 5 + 1);
                    assert(digits_val(rest) > usize::MAX);
                }
            }
            return None;
        }
        val = val * 10 + d;
        i += 1;
    }
    proof {
        assert(rest.take(nlen - 5) =~= rest);
        assert(is_digits(rest));
        assert(proof_file_number(name@) == Some(digits_val(rest)));
    }
    Some(val)
}

/// Sorts `(number, tag)` entries by their number, ascending.  The result is
/// a permutation of the input: it holds exactly the same entries.
pub fn sort_proof_entries(entries: Vec<(usize, usize)>) -> (r: Vec<(usize, usize)>)
    ensures
        r@.len() == entries@.len(),
        forall|i: int, j: int| 0 <= i < j < r@.len() ==> (#[trigger] r@[i]).0 <= (#[trigger] r@[j]).0,
        r@.to_multiset() == entries@.to_multiset(),
{
    broadcast use vstd::seq_lib::group_to_multiset_ensures;

    let mut rest = entries;
    let mut out: Vec<(usize, usize)> = Vec::new();
    while rest.len() > 0
        invariant
            out@.len() + rest@.len() == entries@.len(),
            forall|i: int, j: int| 0 <= i < j < out@.len() ==> (#[trigger] out@[i]).0
                <= (#[trigger] out@[j]).0,
            forall|i: int, j: int|
                0 <= i < out@.len() && 0 <= j < rest@.len() ==> (#[trigger] out@[i]).0
                    <= (#[trigger] rest@[j]).0,
            out@.to_multiset().add(rest@.to_multiset()) == entries@.to_multiset(),
        decreases rest@.len(),
    {
        let mut min_idx: usize = 0;
        let mut idx: usize = 1;
        while idx < rest.len()
            invariant
                min_idx < idx <= rest@.len(),
                rest@.len() > 0,
                forall|j: int| 0 <= j < idx ==> (#[trigger] rest@[j]).0 >= rest@[min_idx as int].0,
            decreases rest@.len() - idx,
        {
            if rest[idx].0 < rest[min_idx].0 {
                min_idx = idx;
            }
            idx += 1;
        }
        let ghost pre = rest@;
        let ghost out_before = out@;
        let picked = rest.remove(min_idx);
        out.push(picked);
        proof {
            pre.to_multiset_ensures();
            out_before.to_multiset_ensures();
            assert(pre[min_idx as int] == picked);
            assert(pre.contains(picked));
            assert(out@ == out_before.push(picked));
            assert(out_before.push(picked).to_multiset() =~= out_before.to_multiset().insert(
                picked,
            ));
            assert(rest@ == pre.remove(min_idx as int));
            assert(pre.remove(min_idx as int).to_multiset() =~= pre.to_multiset().remove(
                pre[min_idx as int],
            ));
            assert(out@.to_multiset().add(rest@.to_multiset()) =~= entries@.to_multiset());
            assert forall|i: int, j: int|
                0 <= i < out@.len() && 0 <= j < rest@.len() implies (#[trigger] out@[i]).0
                <= (#[trigger] rest@[j]).0 by {
                if j < min_idx {
                    assert(rest@[j] == pre[j]);
                } else {
                    assert(rest@[j] == pre[j + 1]);
                }
            }
        }
    }
    out
}

/// The bytes of the name prefix `srs`.
pub open spec fn srs_name_prefix() -> Seq<u8> {
    seq![115u8, 114u8, 115u8]
}

/// The bytes of the path prefix `proofs/proof`.
pub open spec fn proof_path_prefix() -> Seq<u8> {
    seq![112u8, 114u8, 111u8, 111u8, 102u8, 115u8, 47u8, 112u8, 114u8, 111u8, 111u8, 102u8]
}

/// The decimal digits of `n`.
pub open spec fn dec_spec(n: nat) -> Seq<u8>
    decreases n,
{
    if n < 10 {
        seq![(48 + n) as u8]
    } else {
        dec_spec(n / 10).push((48 + n % 10) as u8)
    }
}

/// Formats `n` in decimal ASCII.
pub fn format_usize(n: usize) -> (r: Vec<u8>)
    ensures
        r@ == dec_spec(n as nat),
    decreases n,
{
    if n < 10 {
        let mut v: Vec<u8> = Vec::new();
        v.push(48 + n as u8);
        proof {
            assert(v@ =~= dec_spec(n as nat));
        }
        v
    } else {
        let mut v = format_usize(n / 10);
        v.push(48 + (n % 10) as u8);
        v
    }
}

/// The directory part of a path, up to and including its last separator;
/// empty when the path holds none.
pub open spec fn parent_dir(p: Seq<u8>) -> Seq<u8>
    decreases p.len(),
{
    if p.len() == 0 {
        Seq::empty()
    } else if p.last() == 47 {
        p
    } else {
        parent_dir(p.drop_last())
    }
}

/// Derives the paths for the next SRS file and the next proof file: the new
/// SRS sits beside the old one as `srs<n+1>`, and the new proof is
/// `proofs/proof<n+1>`, where `n` proofs exist already.
pub fn derive_new_path(old_srs_path: &[u8], proof_count: usize) -> (r: (Vec<u8>, Vec<u8>))
    requires
        proof_count < usize::MAX,
    ensures
        r.0@ == parent_dir(old_srs_path@) + srs_name_prefix() + dec_spec((proof_count + 1) as nat),
        r.1@ == proof_path_prefix() + dec_spec((proof_count + 1) as nat),
{
    let mut plen = old_srs_path.len();
    proof {
        assert(old_srs_path@.take(plen as int) =~= old_srs_path@);
    }
    while plen > 0 && old_srs_path[plen - 1] != 47
        invariant
            plen <= old_srs_path@.len(),
            parent_dir(old_srs_path@) == parent_dir(old_srs_path@.take(plen as int)),
        decreases plen,
    {
        proof {
            assert(old_srs_path@.take(plen as int).drop_last() =~= old_srs_path@.take(
                plen as int - 1,
            ));
        }
        plen -= 1;
    }
    proof {
        if plen > 0 {
            assert(parent_dir(old_srs_path@.take(plen as int)) =~= old_srs_path@.take(plen as int));
        } else {
            assert(parent_dir(old_srs_path@.take(0)) =~= old_srs_path@.take(0));
        }
    }
    let number = format_usize(proof_count + 1);
    let mut srs_path: Vec<u8> = Vec::new();
    append_bytes(&mut srs_path, slice_subrange(old_srs_path, 0, plen));
    srs_path.push(115);
    srs_path.push(114);
    srs_path.push(115);
    append_bytes(&mut srs_path, number.as_slice());
    let mut proof_path: Vec<u8> = Vec::new();
    proof_path.push(112);
    proof_path.push(114);
    proof_path.push(111);
    proof_path.push(111);
    proof_path.push(102);
    proof_path.push(115);
    proof_path.push(47);
    proof_path.push(112);
    proof_path.push(114);
    proof_path.push(111);
    proof_path.push(111);
    proof_path.push(102);
    append_bytes(&mut proof_path, number.as_slice());
    proof {
        assert(srs_path@ =~= parent_dir(old_srs_path@) + srs_name_prefix() + dec_spec(
            (proof_count + 1) as nat,
        ));
        assert(proof_path@ =~= proof_path_prefix() + dec_spec((proof_count + 1) as nat));
    }
    (srs_path, proof_path)
}

} // verus!
