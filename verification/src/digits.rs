//! Decimal representation of integers, for the `id` query parameter.

use crate::address::ascii_to_string;
use crate::date::{digit_val, is_digit};
use vstd::prelude::*;

verus! {

/// Every character is an ASCII decimal digit.
pub open spec fn all_digits(s: Seq<char>) -> bool {
    forall|i: int| 0 <= i < s.len() ==> is_digit(#[trigger] s[i])
}

/// The number a sequence of digit characters denotes, most significant first.
pub open spec fn dec_val(s: Seq<char>) -> int
    decreases s.len(),
{
    if s.len() == 0 {
        0
    } else {
        dec_val(s.drop_last()) * 10 + digit_val(s.last())
    }
}

/// `s` is the decimal numeral of the non-negative `v`: digits only, no
/// leading zero, of value `v`.
pub open spec fn is_udec(s: Seq<char>, v: int) -> bool {
    &&& s.len() >= 1
    &&& all_digits(s)
    &&& (s[0] != '0' || s.len() == 1)
    &&& dec_val(s) == v
}

/// `s` is the decimal numeral of `v`, a leading `-` for a negative `v`.
pub open spec fn is_dec(s: Seq<char>, v: int) -> bool {
    if v >= 0 {
        is_udec(s, v)
    } else {
        &&& s.len() >= 2
        &&& s[0] == '-'
        &&& is_udec(s.skip(1), -v)
    }
}

/// The number a sequence of digit bytes denotes, most significant first.
pub open spec fn dec_val_bytes(s: Seq<u8>) -> int
    decreases s.len(),
{
    if s.len() == 0 {
        0
    } else {
        dec_val_bytes(s.drop_last()) * 10 + (s.last() - 48)
    }
}

/// The number a sequence of digit bytes denotes, least significant first.
pub open spec fn dec_val_bytes_le(s: Seq<u8>) -> int
    decreases s.len(),
{
    if s.len() == 0 {
        0
    } else {
        (s[0] - 48) + 10 * dec_val_bytes_le(s.drop_first())
    }
}

/// Ten to the `n`.
pub open spec fn pow10(n: nat) -> int
    decreases n,
{
    if n == 0 {
        1
    } else {
        10 * pow10((n - 1) as nat)
    }
}

/// Appending a least-significant-first digit raises it to the next power.
proof fn lemma_le_push(s: Seq<u8>, d: u8)
    ensures
        dec_val_bytes_le(s.push(d)) == dec_val_bytes_le(s) + (d - 48) * pow10(s.len()),
    decreases s.len(),
{
    assert(dec_val_bytes_le(Seq::<u8>::empty()) == 0);
    if s.len() == 0 {
        assert(s.push(d).drop_first() =~= Seq::<u8>::empty());
        assert(pow10(0) == 1);
    } else {
        assert(s.push(d).drop_first() =~= s.drop_first().push(d));
        lemma_le_push(s.drop_first(), d);
        let p = pow10((s.len() - 1) as nat);
        assert(pow10(s.len()) == 10 * p);
        assert(10 * ((d - 48) * p) == (d - 48) * (10 * p)) by (nonlinear_arith);
    }
}

/// Reversing turns the least-significant-first value into the numeral value.
proof fn lemma_dec_rev(s: Seq<u8>)
    ensures
        dec_val_bytes(s.reverse()) == dec_val_bytes_le(s),
    decreases s.len(),
{
    if s.len() > 0 {
        assert(s.reverse().last() == s[0]);
        assert(s.reverse().drop_last() =~= s.drop_first().reverse());
        lemma_dec_rev(s.drop_first());
    }
}

/// Characters with the code points of digit bytes denote the same number.
proof fn lemma_dec_val_codes(cs: Seq<char>, bs: Seq<u8>)
    requires
        cs.len() == bs.len(),
        forall|i: int| 0 <= i < cs.len() ==> (#[trigger] cs[i]) as u32 == bs[i] as u32,
    ensures
        dec_val(cs) == dec_val_bytes(bs),
    decreases cs.len(),
{
    if cs.len() > 0 {
        lemma_dec_val_codes(cs.drop_last(), bs.drop_last());
    }
}

/// The decimal digits of `n` as ASCII bytes, most significant first.
fn u64_dec_bytes(n: u64) -> (out: Vec<u8>)
    ensures
        out@.len() >= 1,
        forall|i: int| 0 <= i < out@.len() ==> 48 <= #[trigger] out@[i] <= 57,
        out@[0] != 48 || out@.len() == 1,
        dec_val_bytes(out@) == n as int,
{
    let mut buf: Vec<u8> = Vec::new();
    let mut m: u64 = n;
    buf.push((m % 10) as u8 + 48);
    proof {
        assert(buf@.drop_first() =~= Seq::<u8>::empty());
        assert(dec_val_bytes_le(Seq::<u8>::empty()) == 0);
        assert(pow10(0) == 1);
        assert(pow10(1) == 10);
    }
    m = m / 10;
    while m > 0
        invariant
            1 <= buf@.len(),
            forall|i: int| 0 <= i < buf@.len() ==> 48 <= #[trigger] buf@[i] <= 57,
            n as int == dec_val_bytes_le(buf@) + (m as int) * pow10(buf@.len() as nat),
            m == 0 ==> (buf@.last() != 48 || buf@.len() == 1),
        decreases m,
    {
        let d = (m % 10) as u8 + 48;
        proof {
            lemma_le_push(buf@, d);
            let p = pow10(buf@.len() as nat);
            let q = (m / 10) as int;
            let r = (m % 10) as int;
            assert(pow10((buf@.len() + 1) as nat) == 10 * p);
            assert(m as int == 10 * q + r);
            assert((10 * q + r) * p == r * p + q * (10 * p)) by (nonlinear_arith);
        }
        buf.push(d);
        m = m / 10;
    }
    let mut out: Vec<u8> = Vec::new();
    let mut j: usize = buf.len();
    while j > 0
        invariant
            j <= buf@.len(),
            out@.len() == buf@.len() - j,
            forall|k: int| 0 <= k < out@.len() ==> #[trigger] out@[k] == buf@[buf@.len() - 1 - k],
        decreases j,
    {
        j = j - 1;
        out.push(buf[j]);
    }
    proof {
        assert(out@ =~= buf@.reverse());
        lemma_dec_rev(buf@);
    }
    out
}

/// The decimal numeral of the non-negative `n`.
fn u64_to_string(n: u64) -> (r: String)
    ensures
        is_udec(r@, n as int),
{
    let out = u64_dec_bytes(n);
    let s = ascii_to_string(out);
    proof {
        lemma_dec_val_codes(s@, out@);
        assert(s@[0] as u32 == out@[0] as u32);
    }
    s
}

/// The decimal numeral of `v`, a leading `-` for a negative `v`.
pub(crate) fn i64_to_string(v: i64) -> (r: String)
    ensures
        is_dec(r@, v as int),
{
    if v >= 0 {
        u64_to_string(v as u64)
    } else {
        let w: i128 = -(v as i128);
        let mag: u64 = w as u64;
        let t = u64_to_string(mag);
        let mut r = String::from_str("-");
        r.append(t.as_str());
        proof {
            reveal_strlit("-");
            assert(r@.skip(1) =~= t@);
            assert(mag as int == -(v as int));
        }
        r
    }
}

} // verus!
