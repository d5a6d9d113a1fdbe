//! Bit-counting helpers for the packed state bitfields.

use vstd::prelude::*;

verus! {

/// Number of set bits among the lowest `n` bits of `m`.
pub open spec fn popcount16(m: u16, n: nat) -> nat
    decreases n,
{
    if n == 0 {
        0
    } else {
        popcount16(m, (n - 1) as nat) + if m & (1u16 << ((n - 1) as u16)) != 0 {
            1nat
        } else {
            0nat
        }
    }
}

/// Number of set bits among the lowest `n` bits of `m`.
pub open spec fn popcount128(m: u128, n: nat) -> nat
    decreases n,
{
    if n == 0 {
        0
    } else {
        popcount128(m, (n - 1) as nat) + if m & (1u128 << ((n - 1) as u128)) != 0 {
            1nat
        } else {
            0nat
        }
    }
}

pub proof fn lemma_popcount16_bound(m: u16, n: nat)
    ensures
        popcount16(m, n) <= n,
    decreases n,
{
    if n > 0 {
        lemma_popcount16_bound(m, (n - 1) as nat);
    }
}

pub proof fn lemma_popcount128_bound(m: u128, n: nat)
    ensures
        popcount128(m, n) <= n,
    decreases n,
{
    if n > 0 {
        lemma_popcount128_bound(m, (n - 1) as nat);
    }
}

/// Count the set bits of a 16-bit field.
pub fn count_ones16(m: u16) -> (c: u32)
    ensures
        c == popcount16(m, 16),
{
    let mut c: u32 = 0;
    let mut i: u16 = 0;
    while i < 16
        invariant
            i <= 16,
            c == popcount16(m, i as nat),
        decreases 16 - i,
    {
        proof {
            lemma_popcount16_bound(m, i as nat);
        }
        if m & (1u16 << i) != 0 {
            c = c + 1;
        }
        i = i + 1;
    }
    c
}

/// Count the set bits of a 128-bit field.
pub fn count_ones128(m: u128) -> (c: u32)
    ensures
        c == popcount128(m, 128),
{
    let mut c: u32 = 0;
    let mut i: u128 = 0;
    while i < 128
        invariant
            i <= 128,
            c == popcount128(m, i as nat),
        decreases 128 - i,
    {
        proof {
            lemma_popcount128_bound(m, i as nat);
        }
        if m & (1u128 << i) != 0 {
            c = c + 1;
        }
        i = i + 1;
    }
    c
}

/// Setting a bit sets that bit, leaves every other bit alone, and never
/// clears one.
pub proof fn lemma_set_bit8(m: u8, i: u8, j: u8)
    by (bit_vector)
    ensures
        i < 8 ==> ((m | (1u8 << i)) & (1u8 << i)) != 0,
        i != j ==> ((m | (1u8 << i)) & (1u8 << j)) == (m & (1u8 << j)),
        (m & (1u8 << j)) != 0 ==> ((m | (1u8 << i)) & (1u8 << j)) != 0,
{
}

/// Setting a bit sets that bit, leaves every other bit alone, and never
/// clears one.
pub proof fn lemma_set_bit16(m: u16, i: u16, j: u16)
    by (bit_vector)
    ensures
        i < 16 ==> ((m | (1u16 << i)) & (1u16 << i)) != 0,
        i != j ==> ((m | (1u16 << i)) & (1u16 << j)) == (m & (1u16 << j)),
        (m & (1u16 << j)) != 0 ==> ((m | (1u16 << i)) & (1u16 << j)) != 0,
{
}

/// Setting a bit sets that bit, leaves every other bit alone, and never
/// clears one.
pub proof fn lemma_set_bit64(m: u64, i: u64, j: u64)
    by (bit_vector)
    ensures
        i < 64 ==> ((m | (1u64 << i)) & (1u64 << i)) != 0,
        i != j ==> ((m | (1u64 << i)) & (1u64 << j)) == (m & (1u64 << j)),
        (m & (1u64 << j)) != 0 ==> ((m | (1u64 << i)) & (1u64 << j)) != 0,
{
}

/// Setting a bit sets that bit, leaves every other bit alone, and never
/// clears one.
pub proof fn lemma_set_bit128(m: u128, i: u128, j: u128)
    by (bit_vector)
    ensures
        i < 128 ==> ((m | (1u128 << i)) & (1u128 << i)) != 0,
        i != j ==> ((m | (1u128 << i)) & (1u128 << j)) == (m & (1u128 << j)),
        (m & (1u128 << j)) != 0 ==> ((m | (1u128 << i)) & (1u128 << j)) != 0,
{
}

} // verus!
