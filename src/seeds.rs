//! Derivation of the two seeds a generator runs on: the noise seed, one step
//! of the End's skipped Java LCG from the scrambled world seed, and the
//! displacement seed, a SHA-256 fold of the world seed's bytes.
use vstd::prelude::*;

verus! {

/// Multiplier of Java's `java.util.Random` generator.
pub const JAVA_MULTIPLIER: u64 = 0x5_DEEC_E66D;

/// Increment of Java's `java.util.Random` generator.
pub const JAVA_ADDEND: u64 = 0xB;

/// How many Java LCG steps one step of the End's generator stands for.
pub const END_LCG_STEPS: u64 = 17292;

/// The modulus of the 48-bit state.
pub open spec fn two_48() -> int {
    0x1_0000_0000_0000
}

/// Multiplier and addend of `n` Java LCG steps taken at once, modulo 2^48.
pub open spec fn lcg_steps(n: nat) -> (int, int)
    decreases n,
{
    if n == 0 {
        (1, 0)
    } else {
        let (m, a) = lcg_steps((n - 1) as nat);
        ((m * JAVA_MULTIPLIER) % two_48(), (a * JAVA_MULTIPLIER + JAVA_ADDEND) % two_48())
    }
}

/// The next 48-bit state of an LCG with the given multiplier and addend.
pub open spec fn lcg_next(state: int, multiplier: int, addend: int) -> int {
    (state * multiplier + addend) % two_48()
}

/// The noise seed of a world seed.
pub open spec fn noise_seed_spec(seed: u64) -> u64 {
    lcg_next(
        (seed ^ JAVA_MULTIPLIER) as int,
        lcg_steps(END_LCG_STEPS as nat).0,
        lcg_steps(END_LCG_STEPS as nat).1,
    ) as u64
}

/// What `noise_rs::math::sha2long` returns for a seed.
pub uninterp spec fn sha2long_of(seed: u64) -> u64;

/// The displacement seed of a world seed: the fold's 64 bits read as signed.
pub open spec fn displacement_seed_spec(seed: u64) -> i64 {
    #[verifier::truncate] (sha2long_of(seed) as i64)
}

/// Relies on java_random::Random::default_scramble: XOR with the Java multiplier.
#[verifier::external_body]
fn default_scramble(seed: u64) -> (r: u64)
    ensures
        r == seed ^ JAVA_MULTIPLIER,
{
    java_random::Random::default_scramble(seed)
}

/// Relies on java_random::LCG::combine_java: the multiplier and addend of
/// `steps` Java LCG steps composed, each reduced modulo 2^48.
#[verifier::external_body]
fn combine_java(steps: u64) -> (r: (u64, u64))
    ensures
        r.0 as int == lcg_steps(steps as nat).0,
        r.1 as int == lcg_steps(steps as nat).1,
{
    let lcg = java_random::LCG::combine_java(steps);
    (lcg.multiplier, lcg.addend)
}

/// Relies on java_random::Random::next_state, read back with get_raw_seed:
/// one wrapping step `state * multiplier + addend`, masked to 48 bits.
#[verifier::external_body]
fn next_raw_seed(state: u64, multiplier: u64, addend: u64) -> (r: u64)
    ensures
        r as int == lcg_next(state as int, multiplier as int, addend as int),
{
    let lcg = java_random::LCG { multiplier, addend };
    java_random::Random::with_raw_seed_and_lcg(state, lcg).next_state().get_raw_seed()
}

/// Relies on noise_rs::math::sha2long: SHA-256 of the seed's eight
/// little-endian bytes, first eight digest bytes read little-endian.
#[verifier::external_body]
fn sha2long(seed: u64) -> (r: u64)
    ensures
        r == sha2long_of(seed),
{
    noise_rs::math::sha2long(seed)
}

/// The seed of the noise field: the world seed scrambled, then advanced by
/// one step of the End's LCG, as a 48-bit state.
pub fn noise_seed(seed: u64) -> (r: u64)
    ensures
        r == noise_seed_spec(seed),
        (r as int) < two_48(),
{
    let scrambled = default_scramble(seed);
    let (multiplier, addend) = combine_java(END_LCG_STEPS);
    next_raw_seed(scrambled, multiplier, addend)
}

/// The seed of the fuzzing step, from the world seed's SHA-256 fold.
pub fn displacement_seed(seed: u64) -> (r: i64)
    ensures
        r == displacement_seed_spec(seed),
{
    #[verifier::truncate] (sha2long(seed) as i64)
}

} // verus!
