//! Bit-level helpers: low-order masks, field extraction and sign extension.
use vstd::arithmetic::power2::{
    lemma2_to64, lemma_pow2_pos, lemma_pow2_strictly_increases, lemma_pow2_unfold, pow2,
};
use vstd::bits::{
    lemma_u16_low_bits_mask_is_mod, lemma_u16_shr_is_div, lemma_u32_shl_is_mul, low_bits_mask,
};
use vstd::prelude::*;

verus! {

/// The value `2^n - 1` (the low `n` bits set), as a 16-bit word.
pub open spec fn low_mask(n: nat) -> u16 {
    (pow2(n) - 1) as u16
}

/// Bits `[lo + len - 1 : lo]` of `w`, moved down to bit 0.
pub open spec fn field(w: u16, lo: u16, len: nat) -> u16 {
    (w >> lo) & low_mask(len)
}

/// The two's-complement value of an `n`-bit pattern `x` (with `0 <= x < 2^n`).
pub open spec fn signed_value(x: int, n: nat) -> int {
    if x < pow2((n - 1) as nat) {
        x
    } else {
        x - (pow2(n) as int)
    }
}

/// The 16-bit sign extension of the low `n` bits of `v`: the low bits are kept, and
/// bits `n..15` are all copies of bit `n - 1`.
pub open spec fn sext_spec(v: u16, n: nat) -> u16 {
    let low = v as int % (pow2(n) as int);
    if low < pow2((n - 1) as nat) {
        low as u16
    } else {
        (low - (pow2(n) as int) + 0x10000) as u16
    }
}

/// Returns `(1 << n) - 1`: a 16-bit word with the low `n` bits set.
pub fn mask(n: u8) -> (r: u16)
    requires
        1 <= n <= 16,
    ensures
        r as int == pow2(n as nat) - 1,
        r == low_mask(n as nat),
{
    proof {
        lemma2_to64();
        lemma_pow2_pos(n as nat);
        if n < 16 {
            lemma_pow2_strictly_increases(n as nat, 16);
        }
        lemma_u32_shl_is_mul(1, n as u32);
    }
    ((1u32 << (n as u32)) - 1) as u16
}

proof fn lemma_or_with_complement(v: u16, m: u16)
    by (bit_vector)
    ensures
        ((v & m) | !m) as int == (v & m) as int + (!m) as int,
        (!m) as int == 0xFFFF - m as int,
{
}

/// `w & low_mask(n)` keeps the value of `w` modulo `2^n`.
pub proof fn lemma_and_mask_is_mod(w: u16, n: nat)
    requires
        1 <= n <= 16,
    ensures
        (w & low_mask(n)) as int == w as int % (pow2(n) as int),
{
    lemma2_to64();
    if n < 16 {
        lemma_u16_low_bits_mask_is_mod(w, n);
        lemma_pow2_strictly_increases(n, 16);
        lemma_pow2_pos(n);
        assert(low_bits_mask(n) as u16 == low_mask(n));
        assert((pow2(n) as u16) as int == pow2(n) as int);
    } else {
        assert(low_mask(n) == 0xFFFF);
        assert(w & 0xFFFF == w) by (bit_vector);
    }
}

/// Sign extension: treats the low `bit_count` bits of `val` as a two's-complement
/// number and returns it widened to 16 bits.
pub fn sext(val: u16, bit_count: usize) -> (r: u16)
    requires
        1 <= bit_count <= 16,
    ensures
        r == sext_spec(val, bit_count as nat),
{
    let n = bit_count as u8;
    let m = mask(n);
    let low = val & m;
    let sign_bit = (low >> ((bit_count - 1) as u16)) & 1;
    proof {
        let k = (bit_count - 1) as nat;
        lemma_and_mask_is_mod(val, n as nat);
        lemma_pow2_unfold(n as nat);
        lemma_pow2_pos(k);
        lemma_u16_shr_is_div(low, k as u16);
        let q = low >> (k as u16);
        assert(q <= 1 ==> q & 1 == q) by (bit_vector);
        assert(q == 0 || q == 1) by (nonlinear_arith)
            requires
                q as int == low as int / (pow2(k) as int),
                low < 2 * pow2(k),
                pow2(k) > 0,
        ;
        assert(q == 1 <==> low >= pow2(k)) by (nonlinear_arith)
            requires
                q as int == low as int / (pow2(k) as int),
                low < 2 * pow2(k),
                pow2(k) > 0,
        ;
        lemma_or_with_complement(val, m);
    }
    if sign_bit == 1 {
        low | !m
    } else {
        low
    }
}

/// Sign extension preserves the two's-complement value: for every `v` and
/// `1 <= n <= 16`, the widened word read as a signed 16-bit number equals the low
/// `n` bits of `v` (that is, `v & mask(n)`) read as a signed `n`-bit number.
pub proof fn lemma_sext_preserves_signed_value(v: u16, n: nat)
    requires
        1 <= n <= 16,
    ensures
        signed_value(sext_spec(v, n) as int, 16) == signed_value(v as int % (pow2(n) as int), n),
        sext_spec(v, n) == sext_spec((v as int % (pow2(n) as int)) as u16, n),
{
    lemma2_to64();
    lemma_pow2_pos(n);
    lemma_pow2_unfold(n);
    if n < 16 {
        lemma_pow2_strictly_increases(n, 16);
    }
    let low = v as int % (pow2(n) as int);
    assert(low % (pow2(n) as int) == low) by {
        vstd::arithmetic::div_mod::lemma_mod_twice(v as int, pow2(n) as int);
    }
    if n < 16 {
        lemma_pow2_strictly_increases((n - 1) as nat, 15);
    }
}

} // verus!
