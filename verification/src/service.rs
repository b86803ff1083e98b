//! The difference service: one state-mutating operation that reseeds the
//! generator with the host clock and answers with a pseudo-random number in
//! [1, 100], the caller's input, and their absolute difference; and one
//! read-only operation that returns a fixed description.

use vstd::prelude::*;
use vstd::string::StringExecFns;
use crate::rng::{GeneratorState, next_seed, random_from_seed, randoms_after, seed_after};

verus! {

/// The outcome of one difference request: the caller's input echoed back, the
/// generated pseudo-random number in [1, 100], and the absolute difference of
/// the two.
#[derive(Clone, Copy, Debug, PartialEq, Eq, Structural)]
pub struct RandomResult {
    /// The caller's input, unchanged.
    pub user_input: i32,
    /// The generated value, between 1 and 100 inclusive.
    pub random_number: i32,
    /// The absolute difference of the two fields above, saturated at
    /// `i32::MAX` on the few inputs where it does not fit in 32 bits.
    pub difference: i32,
}

/// The absolute difference of two integers.
pub open spec fn abs_diff(a: int, b: int) -> int {
    if a >= b {
        a - b
    } else {
        b - a
    }
}

/// The difference field of a result: the absolute difference of input and
/// random number, saturated at `i32::MAX` where it does not fit in 32 bits
/// (that happens only for inputs within 99 of `i32::MIN`).
pub open spec fn saturated_diff(user_input: i32, random_number: i32) -> i32 {
    if abs_diff(user_input as int, random_number as int) > i32::MAX as int {
        i32::MAX
    } else {
        (abs_diff(user_input as int, random_number as int) as i32)
    }
}

/// The whole outcome of one request made with a given prior seed and clock
/// reading.
pub open spec fn result_of(seed: u64, user_input: i32, clock: u64) -> RandomResult {
    RandomResult {
        user_input: user_input,
        random_number: random_from_seed(next_seed(seed, clock)),
        difference: saturated_diff(user_input, random_from_seed(next_seed(seed, clock))),
    }
}

/// The static description the service answers with.
pub open spec fn info_text() -> Seq<char> {
    "Random Number Difference Calculator - Built on Internet Computer"@
}

/// Relies on `ic_cdk::api::time`: the host's clock, in nanoseconds since the
/// epoch, as an unsigned 64-bit value. The reading depends on the
/// environment, so nothing is promised of it; on a host that provides no
/// system clock the call does not return.
#[verifier::external_body]
fn host_time() -> (t: u64) {
    ic_cdk::api::time()
}

/// Handle one difference request with an explicit clock reading: advance the
/// seed with the reading, draw the pseudo-random number in [1, 100] from the
/// new seed, and return it with the caller's input and their absolute
/// difference.
pub fn calculate_difference_with_clock(
    state: &mut GeneratorState,
    user_input: i32,
    clock: u64,
) -> (r: RandomResult)
    ensures
        final(state).seed == next_seed(old(state).seed, clock),
        r == result_of(old(state).seed, user_input, clock),
        r.user_input == user_input,
        1 <= r.random_number <= 100,
        r.difference == saturated_diff(user_input, r.random_number),
        abs_diff(user_input as int, r.random_number as int) <= i32::MAX
            ==> r.difference == abs_diff(user_input as int, r.random_number as int),
{
    let raw = state.generate_random_number(clock);
    let random_number: i32 = (raw % 100) as i32 + 1;
    let wide: i64 = user_input as i64 - random_number as i64;
    let magnitude: i64 = if wide < 0 { -wide } else { wide };
    let difference: i32 = if magnitude > i32::MAX as i64 { i32::MAX } else { magnitude as i32 };
    RandomResult { user_input, random_number, difference }
}

/// Handle one difference request against the host clock: the seed advances
/// with some clock reading, and the result is exactly the one that reading
/// determines. Which value the clock yields is up to the environment.
pub fn calculate_difference(state: &mut GeneratorState, user_input: i32) -> (r: RandomResult)
    ensures
        exists|clock: u64|
            final(state).seed == next_seed(old(state).seed, clock) && r == result_of(
                old(state).seed,
                user_input,
                clock,
            ),
        r.user_input == user_input,
        1 <= r.random_number <= 100,
        r.difference == saturated_diff(user_input, r.random_number),
{
    let clock = host_time();
    calculate_difference_with_clock(state, user_input, clock)
}

/// Handle one request per clock reading, from the generator's current state,
/// and collect the random numbers drawn. The sequence that comes out is fully
/// determined by the starting seed and the readings: with the clock fixed to
/// the same readings, a run from the same seed reproduces it exactly.
pub fn random_sequence(state: &mut GeneratorState, user_input: i32, clocks: &Vec<u64>) -> (randoms:
    Vec<i32>)
    ensures
        final(state).seed == seed_after(old(state).seed, clocks@),
        randoms@ == randoms_after(old(state).seed, clocks@),
{
    let mut randoms: Vec<i32> = Vec::new();
    let mut i: usize = 0;
    while i < clocks.len()
        invariant
            0 <= i <= clocks.len(),
            state.seed == seed_after(old(state).seed, clocks@.take(i as int)),
            randoms@.len() == i,
            forall|j: int|
                0 <= j < i ==> randoms@[j] == random_from_seed(
                    seed_after(old(state).seed, clocks@.take(j + 1)),
                ),
        decreases clocks.len() - i,
    {
        let r = calculate_difference_with_clock(state, user_input, clocks[i]);
        proof {
            assert(clocks@.take(i + 1).drop_last() =~= clocks@.take(i as int));
            assert(clocks@.take(i + 1).last() == clocks@[i as int]);
        }
        randoms.push(r.random_number);
        i = i + 1;
    }
    proof {
        assert(clocks@.take(clocks@.len() as int) =~= clocks@);
        assert(randoms@ =~= randoms_after(old(state).seed, clocks@));
    }
    randoms
}

/// Determinism under a fixed clock sequence: two runs from equal seeds over
/// equal clock readings yield the same random numbers.
pub proof fn lemma_reproducible(seed1: u64, seed2: u64, clocks: Seq<u64>)
    requires
        seed1 == seed2,
    ensures
        randoms_after(seed1, clocks) == randoms_after(seed2, clocks),
{
}

/// The service's description: always the same literal text, whatever was
/// called before.
pub fn get_info() -> (s: String)
    ensures
        s@ == info_text(),
{
    String::from_str("Random Number Difference Calculator - Built on Internet Computer")
}

} // verus!
