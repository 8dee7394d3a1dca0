//! The per-chunk memo: an `intmap::IntMap` keyed by the packed chunk
//! position, seen by the proofs as a map from keys to biomes.
use vstd::prelude::*;
use crate::biome::EndBiomes;
use intmap::IntMap;

verus! {

#[verifier::external_type_specification]
#[verifier::external_body]
#[verifier::reject_recursive_types(K)]
#[verifier::reject_recursive_types(V)]
pub struct ExIntMap<K, V>(IntMap<K, V>);

/// Relies on the `Clone` that intmap derives for `IntMap`.
pub assume_specification<K: Clone, V: Clone>[ <IntMap<K, V> as Clone>::clone ](m: &IntMap<K, V>) -> IntMap<K, V>;

/// The entries that a chunk memo holds, by packed chunk key.
pub uninterp spec fn memo_entries(m: IntMap<u64, EndBiomes>) -> Map<u64, EndBiomes>;

/// Relies on intmap::IntMap::with_capacity: a map with no entries.
#[verifier::external_body]
pub(crate) fn memo_new() -> (r: IntMap<u64, EndBiomes>)
    ensures
        memo_entries(r) =~= Map::empty(),
{
    IntMap::with_capacity(1024)
}

/// Relies on intmap::IntMap::get: the value stored under `key`, if any.
#[verifier::external_body]
pub(crate) fn memo_get(m: &IntMap<u64, EndBiomes>, key: u64) -> (r: Option<EndBiomes>)
    ensures
        memo_entries(*m).contains_key(key) ==> r == Some(memo_entries(*m)[key]),
        !memo_entries(*m).contains_key(key) ==> r is None,
{
    m.get(key).copied()
}

/// Relies on intmap::IntMap::insert: `key` maps to `value` afterwards, and
/// every other entry stays as it was.
#[verifier::external_body]
pub(crate) fn memo_insert(m: &mut IntMap<u64, EndBiomes>, key: u64, value: EndBiomes)
    ensures
        memo_entries(*final(m)) == memo_entries(*old(m)).insert(key, value),
{
    m.insert(key, value);
}

/// The memo key of a chunk: the bits of `chunk_x` in the high half and those
/// of `chunk_z` in the low half.
pub open spec fn chunk_key_spec(chunk_x: i32, chunk_z: i32) -> u64 {
    ((chunk_x as u32) as int * 0x1_0000_0000 + (chunk_z as u32) as int) as u64
}

pub fn chunk_key(chunk_x: i32, chunk_z: i32) -> (r: u64)
    ensures
        r == chunk_key_spec(chunk_x, chunk_z),
        r as int == (chunk_x as u32) as int * 0x1_0000_0000 + (chunk_z as u32) as int,
{
    (chunk_x as u32 as u64) * 0x1_0000_0000 + (chunk_z as u32 as u64)
}

/// Distinct chunks have distinct memo keys.
pub proof fn lemma_chunk_key_injective(ax: i32, az: i32, bx: i32, bz: i32)
    requires
        chunk_key_spec(ax, az) == chunk_key_spec(bx, bz),
    ensures
        ax == bx,
        az == bz,
{
    let hi_a = (ax as u32) as int;
    let lo_a = (az as u32) as int;
    let hi_b = (bx as u32) as int;
    let lo_b = (bz as u32) as int;
    assert(hi_a * 0x1_0000_0000 + lo_a == hi_b * 0x1_0000_0000 + lo_b);
    assert(hi_a == hi_b && lo_a == lo_b) by (nonlinear_arith)
        requires
            hi_a * 0x1_0000_0000 + lo_a == hi_b * 0x1_0000_0000 + lo_b,
            0 <= lo_a < 0x1_0000_0000,
            0 <= lo_b < 0x1_0000_0000,
    {
        if hi_a < hi_b {
            assert(hi_a * 0x1_0000_0000 + 0x1_0000_0000 <= hi_b * 0x1_0000_0000);
        } else if hi_b < hi_a {
            assert(hi_b * 0x1_0000_0000 + 0x1_0000_0000 <= hi_a * 0x1_0000_0000);
        }
    }
    assert(ax == bx) by (bit_vector)
        requires (ax as u32) == (bx as u32);
    assert(az == bz) by (bit_vector)
        requires (az as u32) == (bz as u32);
}

} // verus!
