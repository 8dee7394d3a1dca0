//! Coordinate fuzzing: a block position is moved to the cell that wins the
//! Voronoi-like draw of `noise_rs`, then reduced to its chunk.
use vstd::prelude::*;
use noise_rs::voronoi::Voronoi;

verus! {

/// What `noise_rs::voronoi::Voronoi::get_fuzzy_positions` returns for a
/// Voronoi built from `world_seed`, at the position `(x, y, z)`.
pub uninterp spec fn fuzzy_positions_of(world_seed: i64, x: i32, y: i32, z: i32) -> (i32, i32, i32);

/// A coordinate the fuzzing step accepts: it subtracts 2 from each one.
pub open spec fn fuzzable(v: i32) -> bool {
    v >= i32::MIN + 2
}

/// The cell of the fuzzing grid below `v`, or the one above it, that a fuzzed
/// coordinate may land on.
pub open spec fn near_cell(v: i32, r: i32) -> bool {
    let base = ((v - 2) as i32) >> 2;
    r == base || r == base + 1
}

/// Relies on noise_rs::voronoi::Voronoi::new and get_fuzzy_positions: the
/// result depends on the seed and the position alone (the Voronoi's own table
/// only memoises it), and each coordinate is the grid cell `(v - 2) >> 2` or
/// the next one up. Each coordinate is lowered by 2 there without wrapping.
#[verifier::external_body]
fn fuzzy_positions(world_seed: i64, x: i32, y: i32, z: i32) -> (r: (i32, i32, i32))
    requires
        fuzzable(x),
        fuzzable(y),
        fuzzable(z),
    ensures
        r == fuzzy_positions_of(world_seed, x, y, z),
        near_cell(x, r.0),
        near_cell(y, r.1),
        near_cell(z, r.2),
{
    Voronoi::new(world_seed).get_fuzzy_positions(x, y, z)
}

/// A block coordinate reduced to its chunk: an arithmetic shift right by 2.
pub open spec fn to_chunk(v: i32) -> i32 {
    v >> 2
}

/// The chunk that a block position is fuzzed into.
pub open spec fn fuzzed_chunk_spec(world_seed: i64, x: i32, y: i32, z: i32) -> (i32, i32) {
    let p = fuzzy_positions_of(world_seed, x, y, z);
    (to_chunk(p.0), to_chunk(p.2))
}

/// Fuzzes `(x, y, z)` and keeps the horizontal part, at chunk granularity.
pub fn fuzzed_chunk(world_seed: i64, x: i32, y: i32, z: i32) -> (r: (i32, i32))
    requires
        fuzzable(x),
        fuzzable(y),
        fuzzable(z),
    ensures
        r == fuzzed_chunk_spec(world_seed, x, y, z),
{
    let (fx, _fy, fz) = fuzzy_positions(world_seed, x, y, z);
    (fx >> 2, fz >> 2)
}

} // verus!
