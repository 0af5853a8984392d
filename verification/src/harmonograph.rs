//! The integer side of the harmonograph programs: how many points there
//! are, how many thread groups compute them, how large their buffers are,
//! and the random walk that drives the Direct3D 12 animation.

use vstd::prelude::*;

verus! {

/// The number of points on the curve.
pub const VERTEX_COUNT: u32 = 500_000;

/// The threads in one group of the Direct3D 12 compute shader.
pub const THREAD_GROUP_SIZE: u32 = 64;

/// The threads in one group of the Vulkan compute shader.
pub const LOCAL_SIZE_X: u32 = 256;

/// The bytes one point takes in a position or colour buffer: four floats.
pub const POINT_BYTES: u64 = 16;

/// The multiplier of the random walk.
pub const RAND_MULTIPLIER: u32 = 1664525;

/// The increment of the random walk.
pub const RAND_INCREMENT: u32 = 1013904223;

/// What a random number's numerator is divided by to give a fraction
/// between nought and one.
pub const RAND_DENOMINATOR: u32 = 0x00FF_FFFF;

/// The number of groups of `group_size` that it takes to hold `items`.
pub open spec fn groups_needed(items: int, group_size: int) -> int {
    (items + group_size - 1) / group_size
}

/// The number of thread groups to dispatch so that every one of `items`
/// has a thread.
pub fn thread_group_count(items: u32, group_size: u32) -> (groups: u32)
    requires
        group_size > 0,
        items + group_size <= u32::MAX,
    ensures
        groups == groups_needed(items as int, group_size as int),
{
    (items + group_size - 1) / group_size
}

/// The groups needed are enough for all items, and one group fewer would
/// not be.
pub proof fn groups_needed_is_least(items: int, group_size: int)
    requires
        items >= 0,
        group_size > 0,
    ensures
        groups_needed(items, group_size) * group_size >= items,
        (groups_needed(items, group_size) - 1) * group_size < items,
{
    let n = items + group_size - 1;
    let q = n / group_size;
    assert(n == group_size * q + n % group_size && 0 <= n % group_size < group_size) by {
        vstd::arithmetic::div_mod::lemma_fundamental_div_mod(n, group_size);
        vstd::arithmetic::div_mod::lemma_mod_bound(n, group_size);
    }
    assert(q * group_size == group_size * q) by (nonlinear_arith);
    assert((q - 1) * group_size == group_size * q - group_size) by (nonlinear_arith);
}

/// The size in bytes of a buffer that holds `points` points.
pub fn point_buffer_bytes(points: u32) -> (bytes: u64)
    ensures
        bytes == points * POINT_BYTES,
{
    (points as u64) * POINT_BYTES
}

/// The state that follows `state` in the random walk: a linear
/// congruential step modulo 2^32.
pub open spec fn lcg_next(state: u32) -> u32 {
    ((state * RAND_MULTIPLIER + RAND_INCREMENT) % 0x1_0000_0000) as u32
}

/// Moves the random walk on by one step and returns the numerator of the
/// next random number: the upper twenty-four bits of the new state. The
/// number itself is the numerator over `RAND_DENOMINATOR`.
pub fn next_rand(state: &mut u32) -> (numerator: u32)
    ensures
        *final(state) == lcg_next(*old(state)),
        numerator == *final(state) / 256,
        numerator <= RAND_DENOMINATOR,
{
    let ghost before = *state;
    let product: u32 = state.wrapping_mul(RAND_MULTIPLIER);
    let next: u32 = product.wrapping_add(RAND_INCREMENT);
    assert(next == lcg_next(before)) by {
        let p = before * RAND_MULTIPLIER;
        assert(product == p % 0x1_0000_0000);
        assert((p % 0x1_0000_0000 + RAND_INCREMENT) % 0x1_0000_0000 == (p + RAND_INCREMENT)
            % 0x1_0000_0000) by {
            vstd::arithmetic::div_mod::lemma_add_mod_noop(
                p as int,
                RAND_INCREMENT as int,
                0x1_0000_0000,
            );
            vstd::arithmetic::div_mod::lemma_small_mod(RAND_INCREMENT as nat, 0x1_0000_0000);
        }
    }
    *state = next;
    let numerator: u32 = next >> 8;
    assert(next >> 8 == next / 256 && next >> 8 <= 0x00FF_FFFFu32) by (bit_vector);
    numerator
}

} // verus!
