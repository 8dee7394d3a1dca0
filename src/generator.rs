//! The memoised End biome generator. A query is answered in up to two steps:
//! a lookup that either knows the biome or names the point whose 32-bit
//! float height decides it, and a settling call that classifies the chunk
//! from that height and remembers the result.
use vstd::prelude::*;
use crate::biome::{EndBiomes, is_central, chunk_biome, classify_chunk, in_central_island};
use crate::seeds::{noise_seed, noise_seed_spec, displacement_seed, displacement_seed_spec};
use crate::memo::{memo_entries, memo_new, memo_get, memo_insert, chunk_key, chunk_key_spec};
use crate::fuzz::{fuzzable, fuzzed_chunk, fuzzed_chunk_spec};
use intmap::IntMap;
use noise_rs::simplex_noise::SimplexNoise;

verus! {

#[verifier::external_type_specification]
#[verifier::external_body]
pub struct ExSimplexNoise(SimplexNoise);

/// Relies on the `Clone` that noise_rs derives for `SimplexNoise`.
pub assume_specification[ <SimplexNoise as Clone>::clone ](n: &SimplexNoise) -> SimplexNoise;

/// Relies on noise_rs::simplex_noise::SimplexNoise::init, fed a
/// java_random::Random holding `seed` as its raw state: builds the noise
/// field's permutation table from that stream.
#[verifier::external_body]
fn simplex_noise(seed: u64) -> (r: SimplexNoise) {
    SimplexNoise::init(java_random::Random::with_raw_seed(seed))
}

/// The answer of a lookup.
#[derive(Debug, Clone, Copy, PartialEq, Eq, Structural)]
pub enum BiomeQuery {
    /// The chunk's biome, from the memo or from the central island.
    Known(EndBiomes),
    /// The chunk must be classified from the height of the noise field at
    /// block `(x, z)`; hand that height to `EndGen::settle`.
    NeedsHeight { chunk_x: i32, chunk_z: i32, x: i32, z: i32 },
}

/// `v` wrapped to 32 bits: the `i32` congruent to it modulo 2^32.
pub open spec fn wrap_i32(v: int) -> i32 {
    let m = v % 0x1_0000_0000;
    if m > i32::MAX {
        (m - 0x1_0000_0000) as i32
    } else {
        m as i32
    }
}

/// The block at a chunk's centre, on one axis: `2 * c + 1` in wrapping
/// 32-bit arithmetic.
pub open spec fn chunk_centre(c: i32) -> i32 {
    wrap_i32(2 * c + 1)
}

/// Computes `chunk_centre(c)`.
pub fn centre_of(c: i32) -> (r: i32)
    ensures
        r == chunk_centre(c),
{
    let v: i64 = 2 * (c as i64) + 1;
    if v > i32::MAX as i64 {
        (v - 0x1_0000_0000) as i32
    } else if v < i32::MIN as i64 {
        (v + 0x1_0000_0000) as i32
    } else {
        v as i32
    }
}

/// The value a memo may hold for a chunk: one that some height classifies it
/// as, i.e. never `Default`, and `TheEnd` exactly on the central island.
pub open spec fn memo_value_ok(chunk_x: i32, chunk_z: i32, b: EndBiomes) -> bool {
    b != EndBiomes::Default && (is_central(chunk_x as int, chunk_z as int) <==> b
        == EndBiomes::TheEnd)
}

/// The answer of a lookup of chunk `(chunk_x, chunk_z)` against a memo.
pub open spec fn query_spec(memo: Map<u64, EndBiomes>, chunk_x: i32, chunk_z: i32) -> BiomeQuery {
    let k = chunk_key_spec(chunk_x, chunk_z);
    if memo.contains_key(k) {
        BiomeQuery::Known(memo[k])
    } else if is_central(chunk_x as int, chunk_z as int) {
        BiomeQuery::Known(EndBiomes::TheEnd)
    } else {
        BiomeQuery::NeedsHeight {
            chunk_x,
            chunk_z,
            x: chunk_centre(chunk_x),
            z: chunk_centre(chunk_z),
        }
    }
}

/// The memo after a lookup that answered `q`: a known answer is remembered.
pub open spec fn memo_after_query(
    memo: Map<u64, EndBiomes>,
    chunk_x: i32,
    chunk_z: i32,
    q: BiomeQuery,
) -> Map<u64, EndBiomes> {
    match q {
        BiomeQuery::Known(b) => memo.insert(chunk_key_spec(chunk_x, chunk_z), b),
        BiomeQuery::NeedsHeight { .. } => memo,
    }
}

/// The biome that settling chunk `(chunk_x, chunk_z)` with height `h` yields:
/// the remembered one if there is one, else the classification.
pub open spec fn settle_spec(memo: Map<u64, EndBiomes>, chunk_x: i32, chunk_z: i32, h: u32) -> EndBiomes {
    let k = chunk_key_spec(chunk_x, chunk_z);
    if memo.contains_key(k) {
        memo[k]
    } else {
        chunk_biome(chunk_x as int, chunk_z as int, h)
    }
}

/// `later` keeps every entry of `earlier`, unchanged.
pub open spec fn memo_extends(earlier: Map<u64, EndBiomes>, later: Map<u64, EndBiomes>) -> bool {
    forall|k: u64| #[trigger]
        earlier.contains_key(k) ==> later.contains_key(k) && later[k] == earlier[k]
}

/// The answer of a lookup of block `(x, y, z)`: the lookup of the chunk it is
/// fuzzed into.
pub open spec fn final_query_spec(
    fuzz_seed: i64,
    memo: Map<u64, EndBiomes>,
    x: i32,
    y: i32,
    z: i32,
) -> BiomeQuery {
    let c = fuzzed_chunk_spec(fuzz_seed, x, y, z);
    query_spec(memo, c.0, c.1)
}

/// A biome generator for one world seed: its two derived seeds, its noise
/// field and its chunk memo.
#[derive(Clone)]
pub struct EndGen {
    seed: u64,
    fuzz_seed: i64,
    noise: SimplexNoise,
    cache: IntMap<u64, EndBiomes>,
}

impl EndGen {
    /// The noise seed the generator runs on.
    pub closed spec fn spec_noise_seed(&self) -> u64 {
        self.seed
    }

    /// The displacement seed the generator fuzzes with.
    pub closed spec fn spec_fuzz_seed(&self) -> i64 {
        self.fuzz_seed
    }

    /// The noise field the generator measures heights on.
    pub closed spec fn spec_noise(&self) -> SimplexNoise {
        self.noise
    }

    /// The chunks the generator has classified, by memo key.
    pub closed spec fn spec_memo(&self) -> Map<u64, EndBiomes> {
        memo_entries(self.cache)
    }

    /// Every remembered biome is one that classification can give its chunk.
    pub open spec fn wf(&self) -> bool {
        forall|cx: i32, cz: i32| #[trigger]
            self.spec_memo().contains_key(chunk_key_spec(cx, cz)) ==> memo_value_ok(
                cx,
                cz,
                self.spec_memo()[chunk_key_spec(cx, cz)],
            )
    }

    /// The generator is the one that `new(seed)` builds: seeds derived from
    /// `seed`, nothing remembered.
    pub open spec fn is_fresh(&self, seed: u64) -> bool {
        &&& self.spec_noise_seed() == noise_seed_spec(seed)
        &&& self.spec_fuzz_seed() == displacement_seed_spec(seed)
        &&& self.spec_memo() == Map::<u64, EndBiomes>::empty()
    }

    /// Derives both seeds from `seed`, builds the noise field, starts with an
    /// empty memo.
    pub fn new(seed: u64) -> (r: EndGen)
        ensures
            r.wf(),
            r.is_fresh(seed),
    {
        let fuzz_seed = displacement_seed(seed);
        let noise_seed = noise_seed(seed);
        let noise = simplex_noise(noise_seed);
        let cache = memo_new();
        EndGen { seed: noise_seed, fuzz_seed, noise, cache }
    }

    /// Derives both seeds anew from `seed`, rebuilds the noise field and
    /// forgets every remembered chunk.
    pub fn set_seed(&mut self, seed: u64)
        ensures
            final(self).wf(),
            final(self).is_fresh(seed),
    {
        *self = EndGen::new(seed);
    }

    /// The noise seed the generator runs on.
    pub fn noise_seed(&self) -> (r: u64)
        ensures
            r == self.spec_noise_seed(),
    {
        self.seed
    }

    /// The displacement seed the generator fuzzes with.
    pub fn fuzz_seed(&self) -> (r: i64)
        ensures
            r == self.spec_fuzz_seed(),
    {
        self.fuzz_seed
    }

    /// The noise field, for measuring the height that a lookup asks for. The
    /// field is handed out mutably because measuring fills its own value
    /// cache; nothing here ties what a caller does with it to the noise seed.
    pub fn noise(&mut self) -> (r: &mut SimplexNoise)
        ensures
            final(self).spec_noise_seed() == old(self).spec_noise_seed(),
            final(self).spec_fuzz_seed() == old(self).spec_fuzz_seed(),
            final(self).spec_memo() == old(self).spec_memo(),
    {
        &mut self.noise
    }

    /// Looks chunk `(chunk_x, chunk_z)` up: a remembered biome, or `TheEnd` on
    /// the central island (remembered from then on), or the point whose
    /// height decides the chunk.
    pub fn get_biome(&mut self, chunk_x: i32, chunk_z: i32) -> (r: BiomeQuery)
        requires
            old(self).wf(),
        ensures
            final(self).wf(),
            r == query_spec(old(self).spec_memo(), chunk_x, chunk_z),
            final(self).spec_memo() == memo_after_query(old(self).spec_memo(), chunk_x, chunk_z, r),
            final(self).spec_noise_seed() == old(self).spec_noise_seed(),
            final(self).spec_fuzz_seed() == old(self).spec_fuzz_seed(),
            final(self).spec_noise() == old(self).spec_noise(),
            memo_extends(old(self).spec_memo(), final(self).spec_memo()),
            r != BiomeQuery::Known(EndBiomes::Default),
    {
        let key = chunk_key(chunk_x, chunk_z);
        match memo_get(&self.cache, key) {
            Some(b) => {
                proof {
                    assert(self.spec_memo().insert(key, b) =~= self.spec_memo());
                }
                BiomeQuery::Known(b)
            },
            None => {
                if in_central_island(chunk_x, chunk_z) {
                    self.remember(chunk_x, chunk_z, EndBiomes::TheEnd);
                    BiomeQuery::Known(EndBiomes::TheEnd)
                } else {
                    BiomeQuery::NeedsHeight {
                        chunk_x,
                        chunk_z,
                        x: centre_of(chunk_x),
                        z: centre_of(chunk_z),
                    }
                }
            },
        }
    }

    fn remember(&mut self, chunk_x: i32, chunk_z: i32, b: EndBiomes)
        requires
            old(self).wf(),
            memo_value_ok(chunk_x, chunk_z, b),
            !old(self).spec_memo().contains_key(chunk_key_spec(chunk_x, chunk_z)),
        ensures
            final(self).wf(),
            final(self).spec_memo() == old(self).spec_memo().insert(
                chunk_key_spec(chunk_x, chunk_z),
                b,
            ),
            final(self).spec_noise_seed() == old(self).spec_noise_seed(),
            final(self).spec_fuzz_seed() == old(self).spec_fuzz_seed(),
            final(self).spec_noise() == old(self).spec_noise(),
            memo_extends(old(self).spec_memo(), final(self).spec_memo()),
    {
        let key = chunk_key(chunk_x, chunk_z);
        memo_insert(&mut self.cache, key, b);
        proof {
            assert forall|cx: i32, cz: i32| #[trigger]
                self.spec_memo().contains_key(chunk_key_spec(cx, cz)) implies memo_value_ok(
                cx,
                cz,
                self.spec_memo()[chunk_key_spec(cx, cz)],
            ) by {
                if chunk_key_spec(cx, cz) == key {
                    crate::memo::lemma_chunk_key_injective(cx, cz, chunk_x, chunk_z);
                } else {
                    assert(old(self).spec_memo().contains_key(chunk_key_spec(cx, cz)));
                }
            }
        }
    }

    /// Settles chunk `(chunk_x, chunk_z)` with the height pattern `h` measured
    /// where a lookup asked: the remembered biome if there is one, else the
    /// classification, which is remembered from then on.
    pub fn settle(&mut self, chunk_x: i32, chunk_z: i32, h: u32) -> (r: EndBiomes)
        requires
            old(self).wf(),
        ensures
            final(self).wf(),
            r == settle_spec(old(self).spec_memo(), chunk_x, chunk_z, h),
            final(self).spec_memo() == old(self).spec_memo().insert(
                chunk_key_spec(chunk_x, chunk_z),
                r,
            ),
            final(self).spec_noise_seed() == old(self).spec_noise_seed(),
            final(self).spec_fuzz_seed() == old(self).spec_fuzz_seed(),
            final(self).spec_noise() == old(self).spec_noise(),
            memo_extends(old(self).spec_memo(), final(self).spec_memo()),
            r != EndBiomes::Default,
    {
        let key = chunk_key(chunk_x, chunk_z);
        match memo_get(&self.cache, key) {
            Some(b) => {
                proof {
                    assert(self.spec_memo().insert(key, b) =~= self.spec_memo());
                }
                b
            },
            None => {
                let b = classify_chunk(chunk_x, chunk_z, h);
                self.remember(chunk_x, chunk_z, b);
                b
            },
        }
    }

    /// Looks up the chunk that block `(x, y, z)` is fuzzed into.
    pub fn get_final_biome(&mut self, x: i32, y: i32, z: i32) -> (r: BiomeQuery)
        requires
            old(self).wf(),
            fuzzable(x),
            fuzzable(y),
            fuzzable(z),
        ensures
            final(self).wf(),
            ({
                let c = fuzzed_chunk_spec(old(self).spec_fuzz_seed(), x, y, z);
                &&& r == final_query_spec(old(self).spec_fuzz_seed(), old(self).spec_memo(), x, y, z)
                &&& r == query_spec(old(self).spec_memo(), c.0, c.1)
                &&& final(self).spec_memo() == memo_after_query(old(self).spec_memo(), c.0, c.1, r)
            }),
            final(self).spec_noise_seed() == old(self).spec_noise_seed(),
            final(self).spec_fuzz_seed() == old(self).spec_fuzz_seed(),
            final(self).spec_noise() == old(self).spec_noise(),
            memo_extends(old(self).spec_memo(), final(self).spec_memo()),
            r != BiomeQuery::Known(EndBiomes::Default),
    {
        let (chunk_x, chunk_z) = fuzzed_chunk(self.fuzz_seed, x, y, z);
        self.get_biome(chunk_x, chunk_z)
    }

    /// Looks up the chunk that block `(x, 0, z)` is fuzzed into.
    pub fn get_final_biome_2d(&mut self, x: i32, z: i32) -> (r: BiomeQuery)
        requires
            old(self).wf(),
            fuzzable(x),
            fuzzable(z),
        ensures
            final(self).wf(),
            ({
                let c = fuzzed_chunk_spec(old(self).spec_fuzz_seed(), x, 0, z);
                &&& r == final_query_spec(old(self).spec_fuzz_seed(), old(self).spec_memo(), x, 0, z)
                &&& r == query_spec(old(self).spec_memo(), c.0, c.1)
                &&& final(self).spec_memo() == memo_after_query(old(self).spec_memo(), c.0, c.1, r)
            }),
            final(self).spec_noise_seed() == old(self).spec_noise_seed(),
            final(self).spec_fuzz_seed() == old(self).spec_fuzz_seed(),
            final(self).spec_noise() == old(self).spec_noise(),
            memo_extends(old(self).spec_memo(), final(self).spec_memo()),
            r != BiomeQuery::Known(EndBiomes::Default),
    {
        self.get_final_biome(x, 0, z)
    }
}

/// Determinism: two generators built from the same seed run on the same noise
/// seed, answer every block lookup alike, and settle every chunk alike for
/// the same height.
pub proof fn lemma_same_seed_same_answers(
    a: EndGen,
    b: EndGen,
    seed: u64,
    x: i32,
    y: i32,
    z: i32,
    chunk_x: i32,
    chunk_z: i32,
    h: u32,
)
    requires
        a.is_fresh(seed),
        b.is_fresh(seed),
    ensures
        a.spec_noise_seed() == b.spec_noise_seed(),
        final_query_spec(a.spec_fuzz_seed(), a.spec_memo(), x, y, z) == final_query_spec(
            b.spec_fuzz_seed(),
            b.spec_memo(),
            x,
            y,
            z,
        ),
        settle_spec(a.spec_memo(), chunk_x, chunk_z, h) == settle_spec(
            b.spec_memo(),
            chunk_x,
            chunk_z,
            h,
        ),
{
}

/// Memo transparency: once a chunk has an answer, a lookup gives that answer
/// again, and settling it again gives it too, whatever height is offered.
pub proof fn lemma_memo_transparent(
    memo: Map<u64, EndBiomes>,
    chunk_x: i32,
    chunk_z: i32,
    b: EndBiomes,
    h: u32,
)
    ensures
        query_spec(memo.insert(chunk_key_spec(chunk_x, chunk_z), b), chunk_x, chunk_z)
            == BiomeQuery::Known(b),
        settle_spec(memo.insert(chunk_key_spec(chunk_x, chunk_z), b), chunk_x, chunk_z, h) == b,
{
}

/// Repeated lookups: once block `(x, y, z)` has been answered with `b` (its
/// chunk is in the memo), any later state of the generator reached by
/// lookups and settling, which keep the fuzz seed and every memo entry,
/// answers that block with `b` again.
pub proof fn lemma_repeat_lookup(earlier: EndGen, later: EndGen, x: i32, y: i32, z: i32, b: EndBiomes)
    requires
        final_query_spec(earlier.spec_fuzz_seed(), earlier.spec_memo(), x, y, z)
            == BiomeQuery::Known(b),
        ({
            let c = fuzzed_chunk_spec(earlier.spec_fuzz_seed(), x, y, z);
            earlier.spec_memo().contains_key(chunk_key_spec(c.0, c.1))
        }),
        later.spec_fuzz_seed() == earlier.spec_fuzz_seed(),
        memo_extends(earlier.spec_memo(), later.spec_memo()),
    ensures
        final_query_spec(later.spec_fuzz_seed(), later.spec_memo(), x, y, z) == BiomeQuery::Known(b),
{
    let c = fuzzed_chunk_spec(earlier.spec_fuzz_seed(), x, y, z);
    assert(later.spec_memo().contains_key(chunk_key_spec(c.0, c.1)));
}

/// Never `Default`: a well-formed generator answers no lookup with
/// `Default`, and settles no chunk as `Default`, whatever the height.
pub proof fn lemma_never_default(g: EndGen, x: i32, y: i32, z: i32, chunk_x: i32, chunk_z: i32, h: u32)
    requires
        g.wf(),
    ensures
        final_query_spec(g.spec_fuzz_seed(), g.spec_memo(), x, y, z) != BiomeQuery::Known(
            EndBiomes::Default,
        ),
        settle_spec(g.spec_memo(), chunk_x, chunk_z, h) != EndBiomes::Default,
{
    let c = fuzzed_chunk_spec(g.spec_fuzz_seed(), x, y, z);
    let k = chunk_key_spec(c.0, c.1);
    if g.spec_memo().contains_key(k) {
        assert(memo_value_ok(c.0, c.1, g.spec_memo()[k]));
    }
    let k2 = chunk_key_spec(chunk_x, chunk_z);
    if g.spec_memo().contains_key(k2) {
        assert(memo_value_ok(chunk_x, chunk_z, g.spec_memo()[k2]));
    }
}

/// Reseeding forgets: a generator reseeded with `seed` answers every block
/// lookup and settles every chunk exactly as a generator newly built from
/// `seed` does, whatever it had remembered before.
pub proof fn lemma_reseed_forgets(
    reseeded: EndGen,
    fresh: EndGen,
    seed: u64,
    x: i32,
    y: i32,
    z: i32,
    chunk_x: i32,
    chunk_z: i32,
    h: u32,
)
    requires
        reseeded.is_fresh(seed),
        fresh.is_fresh(seed),
    ensures
        reseeded.spec_noise_seed() == fresh.spec_noise_seed(),
        final_query_spec(reseeded.spec_fuzz_seed(), reseeded.spec_memo(), x, y, z)
            == final_query_spec(fresh.spec_fuzz_seed(), fresh.spec_memo(), x, y, z),
        settle_spec(reseeded.spec_memo(), chunk_x, chunk_z, h) == chunk_biome(
            chunk_x as int,
            chunk_z as int,
            h,
        ),
{
}

/// The central island: whatever the seed and whatever was remembered, a chunk
/// within the central radius is looked up and settled as `TheEnd`.
pub proof fn lemma_central_chunk(g: EndGen, chunk_x: i32, chunk_z: i32, h: u32)
    requires
        g.wf(),
        is_central(chunk_x as int, chunk_z as int),
    ensures
        query_spec(g.spec_memo(), chunk_x, chunk_z) == BiomeQuery::Known(EndBiomes::TheEnd),
        settle_spec(g.spec_memo(), chunk_x, chunk_z, h) == EndBiomes::TheEnd,
{
    let k = chunk_key_spec(chunk_x, chunk_z);
    if g.spec_memo().contains_key(k) {
        assert(memo_value_ok(chunk_x, chunk_z, g.spec_memo()[k]));
    }
}

} // verus!
