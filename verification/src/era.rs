//! Transaction mortality: the era that a signed extrinsic is valid for.

use crate::runtime::BLOCK_HASH_COUNT;
use vstd::prelude::*;

verus! {

/// The smallest power of two at least `n`, searching upwards from the power
/// of two `p`.
pub open spec fn power_of_two_from(n: nat, p: nat) -> nat
    decreases (if p < n { n - p } else { 0 }),
{
    if p == 0 || p >= n {
        if p == 0 { 1 } else { p }
    } else {
        power_of_two_from(n, 2 * p)
    }
}

/// The smallest power of two greater than or equal to `n` (one for zero).
pub open spec fn next_power_of_two(n: nat) -> nat {
    power_of_two_from(n, 1)
}

/// Calls `u32::checked_next_power_of_two`, which std documents as returning
/// the smallest power of two greater than or equal to `n`, or `None` when that
/// power does not fit in a `u32`.
#[verifier::external_body]
fn checked_next_power_of_two(n: u32) -> (r: Option<u32>)
    ensures
        r == (if next_power_of_two(n as nat) <= u32::MAX {
            Some(next_power_of_two(n as nat) as u32)
        } else {
            None::<u32>
        }),
{
    n.checked_next_power_of_two()
}

/// The `(period, phase)` of a mortal era that starts near block `current`
/// and lasts about `period` blocks: the period is rounded up to a power of two
/// (2^16 when that overflows) and kept between 4 and 2^16; the phase is
/// `current` modulo the period, rounded down to a multiple of a 4096th of the
/// period (at least 1).
pub open spec fn mortal_era(period: u64, current: u64) -> (u64, u64) {
    let np = next_power_of_two(period as nat);
    let rounded: int = if np <= u64::MAX { np as int } else { 65536 };
    let p: int = if rounded < 4 { 4 } else if rounded > 65536 { 65536 } else { rounded };
    let phase: int = current as int % p;
    let factor: int = if p / 4096 >= 1 { p / 4096 } else { 1 };
    (p as u64, (phase / factor * factor) as u64)
}

/// Calls `sp_runtime::generic::Era::mortal(period, current)` and returns the
/// period and phase of the era. The crate's source computes them as
/// `mortal_era` states and always returns `Era::Mortal`.
#[verifier::external_body]
fn era_mortal(period: u64, current: u64) -> (r: Option<(u64, u64)>)
    ensures
        r == Some(mortal_era(period, current)),
{
    match sp_runtime::generic::Era::mortal(period, current) {
        sp_runtime::generic::Era::Mortal(p, phase) => Some((p, phase)),
        sp_runtime::generic::Era::Immortal => None,
    }
}

/// The mortality period that benchmark extrinsics ask for: half the power of
/// two at or above the block-hash count (two if that power overflows).
pub open spec fn benchmark_period(block_hash_count: u32) -> u64 {
    let np = next_power_of_two(block_hash_count as nat);
    if np <= u32::MAX { (np / 2) as u64 } else { 2 }
}

/// The era of a benchmark extrinsic signed at block `best_block`.
pub fn benchmark_era(block_hash_count: u32, best_block: u32) -> (era: (u64, u64))
    ensures
        era == mortal_era(benchmark_period(block_hash_count), best_block as u64),
{
    let period: u64 = match checked_next_power_of_two(block_hash_count) {
        Some(c) => (c / 2) as u64,
        None => 2,
    };
    match era_mortal(period, best_block as u64) {
        Some(era) => era,
        None => (period, 0),
    }
}

proof fn lemma_rounded_down_multiple(phase: int, factor: int)
    by (nonlinear_arith)
    requires
        0 <= phase,
        1 <= factor,
    ensures
        0 <= phase / factor * factor <= phase,
{
}

/// A mortal era lasts between 4 and 2^16 blocks and its phase lies within
/// its period.
pub proof fn lemma_mortal_era_bounds(period: u64, current: u64)
    ensures
        4 <= mortal_era(period, current).0 <= 65536,
        mortal_era(period, current).1 < mortal_era(period, current).0,
{
    let np = next_power_of_two(period as nat);
    let rounded: int = if np <= u64::MAX { np as int } else { 65536 };
    let p: int = if rounded < 4 { 4 } else if rounded > 65536 { 65536 } else { rounded };
    let phase: int = current as int % p;
    let factor: int = if p / 4096 >= 1 { p / 4096 } else { 1 };
    lemma_rounded_down_multiple(phase, factor);
}

/// With the runtime's block-hash count of 2400, benchmark extrinsics live for
/// 2048 blocks (no more than the hashes the chain keeps, so they stay
/// checkable), with the phase `best_block % 2048`.
pub proof fn lemma_benchmark_era_fits_block_hash_count(best_block: u32)
    ensures
        benchmark_period(BLOCK_HASH_COUNT) == 2048,
        mortal_era(benchmark_period(BLOCK_HASH_COUNT), best_block as u64)
            == (2048u64, (best_block as u64 % 2048) as u64),
        benchmark_period(BLOCK_HASH_COUNT) <= BLOCK_HASH_COUNT,
{
    reveal_with_fuel(power_of_two_from, 14);
    assert(next_power_of_two(2400) == 4096);
    assert(next_power_of_two(2048) == 2048);
}

/// Whether a number is a power of two.
pub open spec fn is_power_of_two(x: nat) -> bool
    decreases x,
{
    if x == 0 {
        false
    } else if x == 1 {
        true
    } else {
        x % 2 == 0 && is_power_of_two(x / 2)
    }
}

/// Searching upwards from a power of two finds a power of two that is at
/// least the target and the start, and that is either the start or the first
/// one to reach the target.
proof fn lemma_power_of_two_from(n: nat, p: nat)
    requires
        is_power_of_two(p),
    ensures
        is_power_of_two(power_of_two_from(n, p)),
        power_of_two_from(n, p) >= p,
        power_of_two_from(n, p) >= n,
        power_of_two_from(n, p) == p || power_of_two_from(n, p) / 2 < n,
    decreases (if p < n { n - p } else { 0 }),
{
    if p < n {
        assert((2 * p) % 2 == 0 && (2 * p) / 2 == p);
        assert(is_power_of_two(2 * p));
        lemma_power_of_two_from(n, 2 * p);
    }
}

/// A power of two is its own next power of two.
proof fn lemma_power_of_two_is_fixed(m: nat, p: nat)
    requires
        is_power_of_two(m),
        is_power_of_two(p),
        p <= m,
    ensures
        power_of_two_from(m, p) == m,
    decreases m - p,
{
    if p < m {
        lemma_smaller_power_of_two_doubles(p, m);
        assert((2 * p) % 2 == 0 && (2 * p) / 2 == p);
        lemma_power_of_two_is_fixed(m, 2 * p);
    }
}

/// Of two powers of two, the smaller one at least doubles to the larger.
proof fn lemma_smaller_power_of_two_doubles(p: nat, m: nat)
    requires
        is_power_of_two(p),
        is_power_of_two(m),
        p < m,
    ensures
        2 * p <= m,
    decreases m,
{
    if p > 1 {
        lemma_smaller_power_of_two_doubles(p / 2, m / 2);
    }
}

/// The era of a benchmark extrinsic never outlives the block hashes that the
/// chain keeps, whenever the chain keeps at least four (the shortest era).
pub proof fn lemma_benchmark_era_within_block_hash_count(block_hash_count: u32, best_block: u32)
    requires
        block_hash_count >= 4,
    ensures
        mortal_era(benchmark_period(block_hash_count), best_block as u64).0 <= block_hash_count,
{
    let n = block_hash_count as nat;
    let r = next_power_of_two(n);
    lemma_power_of_two_from(n, 1);
    if r <= u32::MAX {
        let period = r / 2;
        assert(r != 1);
        assert(is_power_of_two(period));
        assert(period < n);
        assert(benchmark_period(block_hash_count) == period as u64);
        lemma_power_of_two_is_fixed(period, 1);
        assert(next_power_of_two(period) == period);
    } else {
        reveal_with_fuel(power_of_two_from, 3);
        assert(next_power_of_two(2) == 2);
    }
}

/// For a block-hash count from 2 to 2^31, the benchmark period is a power of
/// two below the count whose double reaches it: the largest power of two
/// under the count.
pub proof fn lemma_benchmark_period_is_largest_power_below(block_hash_count: u32)
    requires
        2 <= block_hash_count <= 0x8000_0000,
    ensures
        is_power_of_two(benchmark_period(block_hash_count) as nat),
        benchmark_period(block_hash_count) < block_hash_count,
        2 * benchmark_period(block_hash_count) >= block_hash_count,
{
    let n = block_hash_count as nat;
    let r = next_power_of_two(n);
    lemma_power_of_two_from(n, 1);
    assert(r != 1);
    assert(r % 2 == 0);
    assert(r / 2 < n);
    assert(r <= u32::MAX);
    assert(benchmark_period(block_hash_count) == (r / 2) as u64);
}

} // verus!
