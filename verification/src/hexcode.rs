//! Verified hexadecimal encoding and decoding of byte strings, as used for
//! the Drand public key, salts, commitments and signatures.

use vstd::prelude::*;

verus! {

/// Whether `c` is an ASCII hexadecimal digit.
pub open spec fn is_hex_digit(c: u8) -> bool {
    (48 <= c <= 57) || (97 <= c <= 102) || (65 <= c <= 70)
}

/// The value of the hexadecimal digit `c`.
pub open spec fn hex_digit_val(c: u8) -> u8
    recommends
        is_hex_digit(c),
{
    if 48 <= c <= 57 {
        (c - 48) as u8
    } else if 97 <= c <= 102 {
        (c - 87) as u8
    } else {
        (c - 55) as u8
    }
}

/// The lowercase hexadecimal digit for a value below 16.
pub open spec fn hex_digit_char(v: u8) -> u8
    recommends
        v < 16,
{
    if v < 10 {
        (48 + v) as u8
    } else {
        (87 + v) as u8
    }
}

/// Whether `s` is a well-formed hexadecimal string: even length, all digits.
pub open spec fn hex_decode_ok(s: Seq<u8>) -> bool {
    s.len() % 2 == 0 && forall|i: int| 0 <= i < s.len() ==> is_hex_digit(#[trigger] s[i])
}

/// The bytes denoted by the hexadecimal string `s`.
pub open spec fn hex_decode_of(s: Seq<u8>) -> Seq<u8> {
    Seq::new(
        (s.len() / 2) as nat,
        |i: int| ((hex_digit_val(s[2 * i]) as nat) * 16 + hex_digit_val(s[2 * i + 1]) as nat) as u8,
    )
}

/// The lowercase hexadecimal string denoting the bytes `b`.
pub open spec fn hex_encode_of(b: Seq<u8>) -> Seq<u8> {
    Seq::new(
        (2 * b.len()) as nat,
        |i: int|
            if i % 2 == 0 {
                hex_digit_char(b[i / 2] / 16)
            } else {
                hex_digit_char(b[i / 2] % 16)
            },
    )
}

/// Encoding and decoding are inverse: the hexadecimal string of any byte
/// sequence is well formed and denotes exactly that sequence.
pub proof fn lemma_hex_round_trip(b: Seq<u8>)
    ensures
        hex_decode_ok(hex_encode_of(b)),
        hex_decode_of(hex_encode_of(b)) == b,
{
    let enc = hex_encode_of(b);
    assert forall|i: int| 0 <= i < enc.len() implies is_hex_digit(#[trigger] enc[i]) by {
        if i % 2 == 0 {
            assert(b[i / 2] / 16 < 16);
        } else {
            assert(b[i / 2] % 16 < 16);
        }
    }
    assert forall|i: int| 0 <= i < b.len() implies hex_decode_of(enc)[i] == b[i] by {
        assert(enc[2 * i] == hex_digit_char(b[i] / 16));
        assert(enc[2 * i + 1] == hex_digit_char(b[i] % 16));
        assert(hex_digit_val(hex_digit_char(b[i] / 16)) == b[i] / 16);
        assert(hex_digit_val(hex_digit_char(b[i] % 16)) == b[i] % 16);
    }
    assert(hex_decode_of(enc) =~= b);
}

/// Encodes bytes as a lowercase hexadecimal ASCII string.
pub fn hex_encode(bytes: &[u8]) -> (r: Vec<u8>)
    ensures
        r@ == hex_encode_of(bytes@),
        r@.len() == 2 * bytes@.len(),
{
    let mut out: Vec<u8> = Vec::new();
    let mut i: usize = 0;
    while i < bytes.len()
        invariant
            i <= bytes@.len(),
            out@.len() == 2 * i,
            forall|j: int| 0 <= j < 2 * i ==> out@[j] == hex_encode_of(bytes@)[j],
        decreases bytes@.len() - i,
    {
        let b = bytes[i];
        let hi: u8 = b / 16;
        let lo: u8 = b % 16;
        let hi_c: u8 = if hi < 10 {
            48 + hi
        } else {
            87 + hi
        };
        let lo_c: u8 = if lo < 10 {
            48 + lo
        } else {
            87 + lo
        };
        out.push(hi_c);
        out.push(lo_c);
        i += 1;
    }
    proof {
        assert(out@ =~= hex_encode_of(bytes@));
    }
    out
}

/// Decodes a hexadecimal ASCII string; returns the denoted bytes exactly on
/// well-formed input and nothing otherwise.
pub fn hex_decode(s: &[u8]) -> (r: Option<Vec<u8>>)
    ensures
        hex_decode_ok(s@) ==> (r matches Some(v) && v@ == hex_decode_of(s@)),
        !hex_decode_ok(s@) ==> r is None,
{
    if s.len() % 2 != 0 {
        return None;
    }
    let n = s.len() / 2;
    let slen = s.len();
    let mut out: Vec<u8> = Vec::new();
    let mut i: usize = 0;
    while i < n
        invariant
            i <= n,
            n == s@.len() / 2,
            slen == s@.len(),
            s@.len() % 2 == 0,
            out@.len() == i,
            forall|j: int| 0 <= j < 2 * i ==> is_hex_digit(#[trigger] s@[j]),
            forall|j: int| 0 <= j < i ==> out@[j] == hex_decode_of(s@)[j],
        decreases n - i,
    {
        assert(2 * i + 1 < slen);
        let hi = s[2 * i];
        let lo = s[2 * i + 1];
        let hi_ok = (48 <= hi && hi <= 57) || (97 <= hi && hi <= 102) || (65 <= hi && hi <= 70);
        if !hi_ok {
            assert(!is_hex_digit(s@[2 * i as int]));
            return None;
        }
        let lo_ok = (48 <= lo && lo <= 57) || (97 <= lo && lo <= 102) || (65 <= lo && lo <= 70);
        if !lo_ok {
            assert(!is_hex_digit(s@[2 * i as int + 1]));
            return None;
        }
        let hi_v: u8 = if 48 <= hi && hi <= 57 {
            hi - 48
        } else if 97 <= hi && hi <= 102 {
            hi - 87
        } else {
            hi - 55
        };
        let lo_v: u8 = if 48 <= lo && lo <= 57 {
            lo - 48
        } else if 97 <= lo && lo <= 102 {
            lo - 87
        } else {
            lo - 55
        };
        out.push(hi_v * 16 + lo_v);
        i += 1;
    }
    proof {
        assert forall|j: int| 0 <= j < s@.len() implies is_hex_digit(#[trigger] s@[j]) by {
            assert(j < 2 * n);
        }
        assert(out@ =~= hex_decode_of(s@));
    }
    Some(out)
}

} // verus!
