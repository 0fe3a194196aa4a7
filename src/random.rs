//! Counter-based pseudo-random draws. Every draw is a pure function of a
//! seed, a stream number and a position in that stream, so a path's draws do
//! not depend on the order in which paths are computed.

use vstd::prelude::*;
use crate::fixed::SCALE;

verus! {

/// Weyl increment of the SplitMix64 generator.
pub const GOLDEN_GAMMA: u64 = 0x9e37_79b9_7f4a_7c15;

/// Uniform draws summed into one approximately standard-normal draw.
pub const UNIFORMS_PER_NORMAL: u64 = 12;

/// The SplitMix64 output function.
pub open spec fn spec_mix64(z: u64) -> u64 {
    let z1 = (z ^ (z >> 30u64)).wrapping_mul(0xbf58_476d_1ce4_e5b9u64);
    let z2 = (z1 ^ (z1 >> 27u64)).wrapping_mul(0x94d0_49bb_1331_11ebu64);
    z2 ^ (z2 >> 31u64)
}

/// The starting key of stream `stream` under `seed`.
pub open spec fn spec_stream_key(seed: u64, stream: u64) -> u64 {
    spec_mix64(seed.wrapping_add(stream.wrapping_mul(GOLDEN_GAMMA)))
}

/// The `k`-th 64 random bits of stream `stream` under `seed`.
pub open spec fn spec_random_bits(seed: u64, stream: u64, k: u64) -> u64 {
    spec_mix64(spec_stream_key(seed, stream).wrapping_add(k.wrapping_mul(GOLDEN_GAMMA)))
}

/// The `k`-th uniform draw in `[0, 1)` as a fixed-point value.
pub open spec fn spec_uniform(seed: u64, stream: u64, k: u64) -> i64 {
    (spec_random_bits(seed, stream, k) % (SCALE as u64)) as i64
}

/// Position in its stream of the `j`-th uniform draw behind normal draw `step`.
pub open spec fn spec_counter(step: u64, j: u64) -> u64 {
    step.wrapping_mul(UNIFORMS_PER_NORMAL).wrapping_add(j)
}

/// Sum of the first `j` uniform draws behind normal draw `step`.
pub open spec fn spec_uniform_sum(seed: u64, stream: u64, step: u64, j: nat) -> int
    decreases j,
{
    if j == 0 {
        0
    } else {
        spec_uniform_sum(seed, stream, step, (j - 1) as nat) + spec_uniform(
            seed,
            stream,
            spec_counter(step, (j - 1) as u64),
        )
    }
}

/// Normal draw `step` of a stream: twelve uniforms less six, which has mean 0
/// and variance 1 (the Irwin–Hall approximation).
pub open spec fn spec_normal(seed: u64, stream: u64, step: u64) -> i64 {
    (spec_uniform_sum(seed, stream, step, UNIFORMS_PER_NORMAL as nat) - 6 * SCALE) as i64
}

pub proof fn lemma_uniform_sum_bounds(seed: u64, stream: u64, step: u64, j: nat)
    ensures
        0 <= spec_uniform_sum(seed, stream, step, j) <= j * SCALE,
    decreases j,
{
    if j > 0 {
        lemma_uniform_sum_bounds(seed, stream, step, (j - 1) as nat);
    }
}

pub fn mix64(z: u64) -> (r: u64)
    ensures
        r == spec_mix64(z),
{
    let z1 = (z ^ (z >> 30u64)).wrapping_mul(0xbf58_476d_1ce4_e5b9u64);
    let z2 = (z1 ^ (z1 >> 27u64)).wrapping_mul(0x94d0_49bb_1331_11ebu64);
    z2 ^ (z2 >> 31u64)
}

/// The `k`-th 64 random bits of a stream.
pub fn random_bits(seed: u64, stream: u64, k: u64) -> (r: u64)
    ensures
        r == spec_random_bits(seed, stream, k),
{
    let key = mix64(seed.wrapping_add(stream.wrapping_mul(GOLDEN_GAMMA)));
    mix64(key.wrapping_add(k.wrapping_mul(GOLDEN_GAMMA)))
}

/// Normal draw `step` of stream `stream`, as a fixed-point value in
/// `[-6, 6]`.
pub fn normal_draw(seed: u64, stream: u64, step: u64) -> (r: i64)
    ensures
        r == spec_normal(seed, stream, step),
        -6 * SCALE <= r <= 6 * SCALE,
{
    let mut sum: i64 = 0;
    let mut j: u64 = 0;
    while j < UNIFORMS_PER_NORMAL
        invariant
            j <= UNIFORMS_PER_NORMAL,
            sum == spec_uniform_sum(seed, stream, step, j as nat),
        decreases UNIFORMS_PER_NORMAL - j,
    {
        proof {
            lemma_uniform_sum_bounds(seed, stream, step, j as nat);
        }
        let k = step.wrapping_mul(UNIFORMS_PER_NORMAL).wrapping_add(j);
        let u = (random_bits(seed, stream, k) % (SCALE as u64)) as i64;
        sum = sum + u;
        j = j + 1;
    }
    proof {
        lemma_uniform_sum_bounds(seed, stream, step, UNIFORMS_PER_NORMAL as nat);
    }
    sum - 6 * SCALE
}

} // verus!
