//! Biome classification for the outer End: seed derivation, coordinate
//! fuzzing, a per-chunk memo, the island height scan and the height
//! thresholds, with their contracts.
//!
//! A query runs in two steps. `EndGen::get_final_biome` fuzzes the block
//! into its chunk and either knows the biome or names the point whose height
//! decides it; the caller measures that height on `EndGen::noise` over the
//! cells of `height::island_candidates`, and `EndGen::settle` classifies and
//! remembers the chunk.

pub mod biome;
pub mod seeds;
pub mod memo;
pub mod fuzz;
pub mod generator;
pub mod height;
