//! Power-of-two tests and rounding up to an alignment.
use vstd::prelude::*;
use vstd::arithmetic::power2::{pow2, lemma2_to64, lemma_pow2_strictly_increases};

verus! {

/// `n` is a power of two: `2^k` for some `k`.
pub open spec fn is_pow2(n: nat) -> bool {
    exists|k: nat| pow2(k) == n
}

/// Zero is no power of two.
pub proof fn lemma_zero_not_pow2()
    ensures
        !is_pow2(0),
{
    if is_pow2(0) {
        let k = choose|k: nat| pow2(k) == 0;
        vstd::arithmetic::power2::lemma_pow2_pos(k);
    }
}

proof fn lemma_pow2_u32_cases(v: u32)
    ensures
        is_pow2(v as nat) <==> (v == 1 || v == 2 || v == 4 || v == 8 || v == 16 || v == 32
            || v == 64 || v == 128 || v == 256 || v == 512 || v == 1024 || v == 2048
            || v == 4096 || v == 8192 || v == 16384 || v == 32768 || v == 65536
            || v == 131072 || v == 262144 || v == 524288 || v == 1048576 || v == 2097152
            || v == 4194304 || v == 8388608 || v == 16777216 || v == 33554432
            || v == 67108864 || v == 134217728 || v == 268435456 || v == 536870912
            || v == 1073741824 || v == 2147483648u32),
{
    lemma2_to64();
    if is_pow2(v as nat) {
        let k = choose|k: nat| pow2(k) == v as nat;
        if k >= 32 {
            if k > 32 {
                lemma_pow2_strictly_increases(32, k);
            }
        } else {
            assert(k == 0 || k == 1 || k == 2 || k == 3 || k == 4 || k == 5 || k == 6 || k == 7
                || k == 8 || k == 9 || k == 10 || k == 11 || k == 12 || k == 13 || k == 14
                || k == 15 || k == 16 || k == 17 || k == 18 || k == 19 || k == 20 || k == 21
                || k == 22 || k == 23 || k == 24 || k == 25 || k == 26 || k == 27 || k == 28
                || k == 29 || k == 30 || k == 31);
        }
    }
}

/// Whether `val` is a power of two, by the test `val != 0 && val & (val - 1) == 0`.
pub fn is_power_of_two(val: u32) -> (r: bool)
    ensures
        r == is_pow2(val as nat),
{
    proof {
        lemma_pow2_u32_cases(val);
    }
    let r = val != 0 && (val & (val - 1)) == 0;
    assert(r == (val == 1 || val == 2 || val == 4 || val == 8 || val == 16 || val == 32
        || val == 64 || val == 128 || val == 256 || val == 512 || val == 1024 || val == 2048
        || val == 4096 || val == 8192 || val == 16384 || val == 32768 || val == 65536
        || val == 131072 || val == 262144 || val == 524288 || val == 1048576 || val == 2097152
        || val == 4194304 || val == 8388608 || val == 16777216 || val == 33554432
        || val == 67108864 || val == 134217728 || val == 268435456 || val == 536870912
        || val == 1073741824 || val == 2147483648u32)) by (bit_vector)
        requires
            r == (val != 0 && (val & ((val - 1) as u32)) == 0),
    ;
    r
}

/// `value` rounded up to the next multiple of `alignment`.
pub open spec fn aligned_up(value: int, alignment: int) -> int {
    ((value + (alignment - 1)) / alignment) * alignment
}

/// Rounds `value` up to the nearest multiple of `alignment`: the smallest
/// multiple of `alignment` that is at least `value`.
pub fn align_up(value: u32, alignment: u32) -> (r: u32)
    requires
        alignment > 0,
        value + alignment - 1 <= u32::MAX,
    ensures
        r == aligned_up(value as int, alignment as int),
        r % alignment == 0,
        value <= r < value + alignment,
{
    proof {
        lemma_aligned_up_bounds(value as int, alignment as int);
    }
    ((value + (alignment - 1)) / alignment) * alignment
}

proof fn lemma_aligned_up_bounds(value: int, alignment: int)
    requires
        value >= 0,
        alignment > 0,
    ensures
        aligned_up(value, alignment) % alignment == 0,
        value <= aligned_up(value, alignment) < value + alignment,
        aligned_up(value, alignment) <= value + alignment - 1,
{
    let q = (value + alignment - 1) / alignment;
    vstd::arithmetic::div_mod::lemma_fundamental_div_mod(value + alignment - 1, alignment);
    vstd::arithmetic::div_mod::lemma_mod_multiples_basic(q, alignment);
    assert(q * alignment == alignment * q) by (nonlinear_arith);
}

/// Aligning to 1 leaves every value as it is.
pub proof fn align_up_by_one(value: nat)
    ensures
        aligned_up(value as int, 1) == value,
{
}

/// Aligning an already aligned value changes nothing: `align_up` is idempotent.
pub proof fn align_up_idempotent(value: nat, alignment: nat)
    requires
        alignment > 0,
    ensures
        aligned_up(aligned_up(value as int, alignment as int), alignment as int)
            == aligned_up(value as int, alignment as int),
{
    let a = alignment as int;
    let r = aligned_up(value as int, a);
    lemma_aligned_up_bounds(value as int, a);
    lemma_aligned_up_bounds(r, a);
    let s = aligned_up(r, a);
    // r and s are both multiples of a with r <= s < r + a, so they coincide.
    vstd::arithmetic::div_mod::lemma_fundamental_div_mod(r, a);
    vstd::arithmetic::div_mod::lemma_fundamental_div_mod(s, a);
    let qr = r / a;
    let qs = s / a;
    assert(r == a * qr);
    assert(s == a * qs);
    assert(qs == qr) by (nonlinear_arith)
        requires
            r == a * qr,
            s == a * qs,
            r <= s < r + a,
            a > 0,
    {
        if qs > qr {
            assert(a * qs >= a * (qr + 1));
        } else if qs < qr {
            assert(a * qr >= a * (qs + 1));
        }
    }
}

} // verus!
