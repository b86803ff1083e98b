//! The pseudo-random generator: a single 64-bit seed, advanced by a linear
//! congruential recurrence with a clock reading mixed in additively.

use vstd::prelude::*;
use vstd::arithmetic::div_mod::{lemma_add_mod_noop, lemma_mod_add_multiples_vanish, lemma_small_mod};

verus! {

/// Multiplier of the linear congruential recurrence.
pub const MULTIPLIER: u64 = 1664525;

/// Increment of the linear congruential recurrence.
pub const INCREMENT: u64 = 1013904223;

/// The seed every generator starts from at process start.
pub const INITIAL_SEED: u64 = 1;

/// The seed after one update: the linear congruential step with the clock
/// reading added in, taken modulo 2^64.
pub open spec fn next_seed(seed: u64, clock: u64) -> u64 {
    (((seed * MULTIPLIER + INCREMENT + clock) % 0x1_0000_0000_0000_0000) as u64)
}

/// The 32 bits of a seed above its low 16: bits 16 to 47, the raw
/// pseudo-random value drawn from that seed.
pub open spec fn upper_bits(seed: u64) -> u32 {
    (((seed >> 16) & 0xffff_ffff) as u32)
}

/// The pseudo-random number drawn from a seed: its upper bits reduced to the
/// range [1, 100].
pub open spec fn random_from_seed(seed: u64) -> i32 {
    ((upper_bits(seed) as int % 100 + 1) as i32)
}

/// The seed after a sequence of updates, one per clock reading.
pub open spec fn seed_after(seed: u64, clocks: Seq<u64>) -> u64
    decreases clocks.len(),
{
    if clocks.len() == 0 {
        seed
    } else {
        next_seed(seed_after(seed, clocks.drop_last()), clocks.last())
    }
}

/// The random numbers produced by a run of calls from a given seed: element
/// `i` is drawn from the seed as updated by the first `i + 1` clock readings.
pub open spec fn randoms_after(seed: u64, clocks: Seq<u64>) -> Seq<i32> {
    Seq::new(clocks.len(), |i: int| random_from_seed(seed_after(seed, clocks.take(i + 1))))
}

/// The generator's whole state: one 64-bit seed, mutated in place on every
/// random-number request.
pub struct GeneratorState {
    /// The current seed of the recurrence.
    pub seed: u64,
}

/// Adding `y` to a reduced value `x` with wraparound reduces `a + y`.
proof fn lemma_wrapping_add_mod(a: int, x: u64, y: u64)
    requires
        a >= 0,
        x == a % 0x1_0000_0000_0000_0000,
    ensures
        vstd::wrapping::u64_specs::wrapping_add(x, y) == (a + y) % 0x1_0000_0000_0000_0000,
{
    let m: int = 0x1_0000_0000_0000_0000;
    lemma_small_mod(y as nat, m as nat);
    lemma_add_mod_noop(a, y as int, m);
    if x + y > u64::MAX {
        lemma_mod_add_multiples_vanish(x + y - m, m);
        lemma_small_mod((x + y - m) as nat, m as nat);
    } else {
        lemma_small_mod((x + y) as nat, m as nat);
    }
}

impl GeneratorState {
    /// A freshly initialized generator, as at process start.
    pub fn new() -> (s: GeneratorState)
        ensures
            s.seed == INITIAL_SEED,
    {
        GeneratorState { seed: INITIAL_SEED }
    }

    /// Advance the seed with one clock reading and return the new seed's
    /// upper bits as the raw 32-bit pseudo-random value.
    pub fn generate_random_number(&mut self, clock: u64) -> (raw: u32)
        ensures
            final(self).seed == next_seed(old(self).seed, clock),
            raw == upper_bits(final(self).seed),
    {
        let seed0 = self.seed;
        let s1 = seed0.wrapping_mul(MULTIPLIER);
        let s2 = s1.wrapping_add(INCREMENT);
        let s3 = s2.wrapping_add(clock);
        proof {
            let m: int = 0x1_0000_0000_0000_0000;
            let a: int = seed0 * MULTIPLIER;
            assert(s1 == a % m);
            lemma_wrapping_add_mod(a, s1, INCREMENT);
            lemma_wrapping_add_mod(a + INCREMENT, s2, clock);
            assert(s3 == next_seed(seed0, clock));
        }
        self.seed = s3;
        assert(((s3 >> 16) & 0xffff_ffff) <= 0xffff_ffff) by (bit_vector);
        ((s3 >> 16) & 0xffff_ffff) as u32
    }
}

} // verus!
