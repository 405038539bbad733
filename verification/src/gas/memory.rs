//! The price of memory: linear in the number of 32-byte words in use,
//! plus a quadratic term.

use vstd::prelude::*;

verus! {

/// The number of 32-byte words that `size` bytes take: `ceil(size / 32)`.
pub open spec fn words(size: int) -> int {
    (size + 31) / 32
}

/// The total price of a memory of `size` bytes:
/// `3 * words + floor(words^2 / 512)`.
pub open spec fn memory_cost(size: int) -> int {
    3 * words(size) + (words(size) * words(size)) / 512
}

/// What growing memory from `old_size` to `new_size` bytes costs:
/// `max(0, cost(new) - cost(old))`.
pub open spec fn expansion_delta(old_size: int, new_size: int) -> int {
    if memory_cost(new_size) - memory_cost(old_size) > 0 {
        memory_cost(new_size) - memory_cost(old_size)
    } else {
        0
    }
}

/// `x` where it fits in 64 bits, else the largest 64-bit value.
pub open spec fn clamp_u64(x: int) -> u64 {
    if x > u64::MAX {
        u64::MAX
    } else if x < 0 {
        0
    } else {
        x as u64
    }
}

/// `x` where it fits in a `usize`, else the largest `usize`.
pub open spec fn clamp_usize(x: int) -> usize {
    if x > usize::MAX {
        usize::MAX
    } else if x < 0 {
        0
    } else {
        x as usize
    }
}

/// The largest end of a memory access that two 64-bit operands can name.
pub const MAX_ACCESS_END: u128 = 0x1_ffff_ffff_ffff_fffe;

/// No expansion within [`MAX_ACCESS_END`] costs more than this.
pub const MAX_MEMORY_COST: u128 = 0x8000_0000_0000_3000_0000_0000_0000;

/// More words never cost less.
pub proof fn lemma_memory_cost_monotonic(a: int, b: int)
    requires
        0 <= a <= b,
    ensures
        0 <= memory_cost(a) <= memory_cost(b),
{
    let wa = words(a);
    let wb = words(b);
    assert(0 <= wa <= wb);
    assert(wa * wa <= wb * wb) by (nonlinear_arith)
        requires
            0 <= wa <= wb,
    ;
    assert(0 <= wa * wa) by (nonlinear_arith);
}

/// Growing memory to a size it already has costs nothing, and growing it
/// costs the difference of the two prices.
pub proof fn lemma_expansion_delta(old_size: int, new_size: int)
    requires
        0 <= old_size,
        0 <= new_size,
    ensures
        new_size <= old_size ==> expansion_delta(old_size, new_size) == 0,
        new_size > old_size ==> expansion_delta(old_size, new_size) == memory_cost(new_size)
            - memory_cost(old_size),
        expansion_delta(old_size, new_size) >= 0,
{
    if new_size <= old_size {
        lemma_memory_cost_monotonic(new_size, old_size);
    } else {
        lemma_memory_cost_monotonic(old_size, new_size);
    }
}

/// The prices of an empty memory, of one word and of a million bytes.
pub proof fn lemma_memory_cost_examples()
    ensures
        memory_cost(0) == 0,
        memory_cost(32) == 3,
        memory_cost(1_000_000) == 3 * 31_250 + (31_250 * 31_250) / 512,
        memory_cost(1_000_000) == 2_001_098,
{
    assert(words(0) == 0);
    assert(words(32) == 1);
    assert(words(0) * words(0) == 0);
    assert(words(32) * words(32) == 1);
    assert(words(1_000_000) == 31_250);
    assert(31_250 * 31_250 == 976_562_500) by (nonlinear_arith);
}

/// `x` where it fits in 64 bits, else the largest 64-bit value.
pub fn saturate_u64(x: u128) -> (r: u64)
    ensures
        r == clamp_u64(x as int),
{
    if x > u64::MAX as u128 {
        u64::MAX
    } else {
        x as u64
    }
}

/// `x` where it fits in a `usize`, else the largest `usize`.
pub fn saturate_usize(x: u128) -> (r: usize)
    ensures
        r == clamp_usize(x as int),
{
    if x > usize::MAX as u128 {
        usize::MAX
    } else {
        x as usize
    }
}

/// The number of 32-byte words that `size` bytes take.
pub fn word_count(size: u128) -> (w: u128)
    requires
        size <= MAX_ACCESS_END,
    ensures
        w == words(size as int),
        w <= 0x1000_0000_0000_0000,
{
    (size + 31) / 32
}

/// The total price of a memory of `size` bytes.
pub fn price_of_memory(size: u128) -> (cost: u128)
    requires
        size <= MAX_ACCESS_END,
    ensures
        cost == memory_cost(size as int),
        cost <= MAX_MEMORY_COST,
{
    let w = word_count(size);
    assert(w * w <= 0x1000_0000_0000_0000 * 0x1000_0000_0000_0000) by (nonlinear_arith)
        requires
            0 <= w <= 0x1000_0000_0000_0000,
    ;
    3 * w + (w * w) / 512
}

/// What growing memory from `old_size` to `new_size` bytes costs.
pub fn price_of_expansion(old_size: usize, new_size: u128) -> (cost: u128)
    requires
        new_size <= MAX_ACCESS_END,
    ensures
        cost == expansion_delta(old_size as int, new_size as int),
        cost <= MAX_MEMORY_COST,
{
    proof {
        lemma_expansion_delta(old_size as int, new_size as int);
    }
    if new_size <= old_size as u128 {
        0
    } else {
        proof {
            lemma_memory_cost_monotonic(old_size as int, new_size as int);
        }
        price_of_memory(new_size) - price_of_memory(old_size as u128)
    }
}

} // verus!
