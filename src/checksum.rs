//! Fletcher-16 checksum over a byte buffer.
use vstd::prelude::*;
use vstd::arithmetic::div_mod::{lemma_add_mod_noop_right, lemma_sub_mod_noop};

verus! {

/// The two running sums of Fletcher-16 after consuming all of `s`.
pub open spec fn fletcher_sums(s: Seq<u8>) -> (nat, nat)
    decreases s.len(),
{
    if s.len() == 0 {
        (0, 0)
    } else {
        let (a, b) = fletcher_sums(s.drop_last());
        let a2 = (a + s.last() as nat) % 255;
        (a2, (b + a2) % 255)
    }
}

/// Fletcher-16 of `s`: the second sum in the high byte, the first in the low byte.
pub open spec fn fletcher16_spec(s: Seq<u8>) -> u16 {
    let (a, b) = fletcher_sums(s);
    (b * 256 + a) as u16
}

/// Computes the Fletcher-16 checksum of `data`.
pub fn fletcher16(data: &[u8]) -> (r: u16)
    ensures
        r == fletcher16_spec(data@),
        r as nat == fletcher_sums(data@).1 * 256 + fletcher_sums(data@).0,
{
    let mut sum1: u16 = 0;
    let mut sum2: u16 = 0;
    let mut i: usize = 0;
    while i < data.len()
        invariant
            i <= data@.len(),
            sum1 < 255,
            sum2 < 255,
            (sum1 as nat, sum2 as nat) == fletcher_sums(data@.subrange(0, i as int)),
        decreases data@.len() - i,
    {
        let byte = data[i];
        proof {
            let s = data@.subrange(0, i as int + 1);
            assert(s.drop_last() =~= data@.subrange(0, i as int));
        }
        sum1 = (sum1 + byte as u16) % 255;
        sum2 = (sum2 + sum1) % 255;
        i = i + 1;
    }
    assert(data@.subrange(0, i as int) =~= data@);
    let hi: u16 = sum2;
    let lo: u16 = sum1;
    let r = (hi << 8u16) | lo;
    assert(r == hi * 256 + lo) by (bit_vector)
        requires
            hi < 255,
            lo < 255,
            r == (hi << 8u16) | lo,
    ;
    r
}

/// Sum of the bytes of `s`.
pub open spec fn byte_sum(s: Seq<u8>) -> int
    decreases s.len(),
{
    if s.len() == 0 {
        0
    } else {
        byte_sum(s.drop_last()) + s.last()
    }
}

/// The first running sum is the sum of the bytes modulo 255.
proof fn lemma_first_sum(s: Seq<u8>)
    ensures
        fletcher_sums(s).0 == byte_sum(s) % 255,
    decreases s.len(),
{
    if s.len() > 0 {
        lemma_first_sum(s.drop_last());
        lemma_add_mod_noop_right(s.last() as int, byte_sum(s.drop_last()), 255);
    }
}

/// Replacing one byte changes the sum by the difference of the bytes.
proof fn lemma_sum_update(s: Seq<u8>, i: int, v: u8)
    requires
        0 <= i < s.len(),
    ensures
        byte_sum(s.update(i, v)) == byte_sum(s) - s[i] + v,
    decreases s.len(),
{
    let t = s.update(i, v);
    if i == s.len() - 1 {
        assert(t.drop_last() =~= s.drop_last());
    } else {
        assert(t.drop_last() =~= s.drop_last().update(i, v));
        lemma_sum_update(s.drop_last(), i, v);
    }
}

/// Replacing a byte by one that differs from it by other than a multiple of
/// 255 changes the checksum.
pub proof fn lemma_checksum_detects_byte_change(s: Seq<u8>, i: int, v: u8)
    requires
        0 <= i < s.len(),
        (v - s[i]) % 255 != 0,
    ensures
        fletcher16_spec(s.update(i, v)) != fletcher16_spec(s),
{
    let t = s.update(i, v);
    lemma_first_sum(s);
    lemma_first_sum(t);
    lemma_sum_update(s, i, v);
    let d = v - s[i];
    lemma_sub_mod_noop(byte_sum(s) + d, byte_sum(s), 255);
    let (a1, b1) = fletcher_sums(s);
    let (a2, b2) = fletcher_sums(t);
    assert(a1 != a2);
    assert(b1 * 256 + a1 != b2 * 256 + a2) by (nonlinear_arith)
        requires
            a1 != a2,
            a1 < 255,
            a2 < 255,
            b1 < 255,
            b2 < 255,
    ;
}

/// Flipping any single bit of the input changes the checksum: the checksum is
/// a function of the bytes alone, and it tells apart any two inputs that
/// differ in one bit.
pub proof fn lemma_checksum_detects_bit_flip(s: Seq<u8>, i: int, k: u8)
    requires
        0 <= i < s.len(),
        k < 8,
    ensures
        fletcher16_spec(s.update(i, s[i] ^ (1u8 << k))) != fletcher16_spec(s),
{
    let b = s[i];
    let c = b ^ (1u8 << k);
    let m = 1u8 << k;
    assert((c > b && c - b == m) || (c < b && b - c == m)) by (bit_vector)
        requires
            c == b ^ (1u8 << k),
            m == 1u8 << k,
            k < 8,
    ;
    assert(1 <= m <= 128) by (bit_vector)
        requires
            m == 1u8 << k,
            k < 8,
    ;
    lemma_checksum_detects_byte_change(s, i, c);
}

} // verus!
