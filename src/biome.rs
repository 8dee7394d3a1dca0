//! The biome enumeration, its stable codes and names, and the classifier
//! that turns a chunk position and a 32-bit float height into a biome.
use vstd::prelude::*;

verus! {

/// A terrain category of the End. `Default` means "not computed yet" and is
/// never the outcome of a classification.
#[derive(Debug, Clone, Copy, PartialEq, Eq, Structural)]
pub enum EndBiomes {
    Default,
    TheEnd,
    SmallEndIslands,
    EndMidlands,
    EndHighlands,
    EndBarrens,
}

impl EndBiomes {
    /// The numeric code that outside consumers rely on.
    pub open spec fn code_spec(self) -> u32 {
        match self {
            EndBiomes::Default => 0,
            EndBiomes::TheEnd => 9,
            EndBiomes::SmallEndIslands => 40,
            EndBiomes::EndMidlands => 41,
            EndBiomes::EndHighlands => 42,
            EndBiomes::EndBarrens => 43,
        }
    }

    /// The display name: the variant's own name.
    pub open spec fn name_spec(self) -> &'static str {
        match self {
            EndBiomes::Default => "Default",
            EndBiomes::TheEnd => "TheEnd",
            EndBiomes::SmallEndIslands => "SmallEndIslands",
            EndBiomes::EndMidlands => "EndMidlands",
            EndBiomes::EndHighlands => "EndHighlands",
            EndBiomes::EndBarrens => "EndBarrens",
        }
    }

    pub fn code(&self) -> (r: u32)
        ensures
            r == self.code_spec(),
    {
        match self {
            EndBiomes::Default => 0,
            EndBiomes::TheEnd => 9,
            EndBiomes::SmallEndIslands => 40,
            EndBiomes::EndMidlands => 41,
            EndBiomes::EndHighlands => 42,
            EndBiomes::EndBarrens => 43,
        }
    }

    pub fn name(&self) -> (r: &'static str)
        ensures
            r == self.name_spec(),
    {
        match self {
            EndBiomes::Default => "Default",
            EndBiomes::TheEnd => "TheEnd",
            EndBiomes::SmallEndIslands => "SmallEndIslands",
            EndBiomes::EndMidlands => "EndMidlands",
            EndBiomes::EndHighlands => "EndHighlands",
            EndBiomes::EndBarrens => "EndBarrens",
        }
    }
}

/// Radius bound (squared, in chunks) of the central island.
pub const CENTRAL_RADIUS_SQ: u64 = 4096;

/// The chunk lies on the central island.
pub open spec fn is_central(chunk_x: int, chunk_z: int) -> bool {
    chunk_x * chunk_x + chunk_z * chunk_z <= 4096
}

pub fn in_central_island(chunk_x: i32, chunk_z: i32) -> (r: bool)
    ensures
        r == is_central(chunk_x as int, chunk_z as int),
{
    let ax: u64 = if chunk_x < 0 { (0i64 - chunk_x as i64) as u64 } else { chunk_x as u64 };
    let az: u64 = if chunk_z < 0 { (0i64 - chunk_z as i64) as u64 } else { chunk_z as u64 };
    assert(ax * ax <= 0x4000_0000_0000_0000) by (nonlinear_arith)
        requires ax <= 0x8000_0000;
    assert(az * az <= 0x4000_0000_0000_0000) by (nonlinear_arith)
        requires az <= 0x8000_0000;
    assert(ax * ax == chunk_x * chunk_x) by (nonlinear_arith)
        requires ax == chunk_x || ax == -chunk_x;
    assert(az * az == chunk_z * chunk_z) by (nonlinear_arith)
        requires az == chunk_z || az == -chunk_z;
    ax * ax + az * az <= CENTRAL_RADIUS_SQ
}

// A height is carried as the bit pattern of an IEEE-754 binary32 value, and
// compared as binary32 values compare: NaN is unordered, -0 equals +0.

/// Bit pattern of the binary32 value 40.0.
pub const HEIGHT_40: u32 = 0x4220_0000;

/// Bit pattern of the binary32 value 0.0.
pub const HEIGHT_0: u32 = 0;

/// Bit pattern of the binary32 value -20.0.
pub const HEIGHT_MINUS_20: u32 = 0xC1A0_0000;

/// The pattern encodes a NaN: all exponent bits set, a nonzero fraction.
pub open spec fn f32_is_nan(b: u32) -> bool {
    (b & 0x7F80_0000) == 0x7F80_0000 && (b & 0x007F_FFFF) != 0
}

/// An integer that orders non-NaN patterns as their values order:
/// the magnitude bits, negated when the sign bit is set.
pub open spec fn f32_rank(b: u32) -> int {
    if b < 0x8000_0000 {
        b as int
    } else {
        -((b & 0x7FFF_FFFF) as int)
    }
}

/// `a < b` on binary32 values.
pub open spec fn f32_lt(a: u32, b: u32) -> bool {
    !f32_is_nan(a) && !f32_is_nan(b) && f32_rank(a) < f32_rank(b)
}

/// `a <= b` on binary32 values.
pub open spec fn f32_le(a: u32, b: u32) -> bool {
    !f32_is_nan(a) && !f32_is_nan(b) && f32_rank(a) <= f32_rank(b)
}

/// The biome of an outer chunk whose height has pattern `h`.
pub open spec fn height_biome(h: u32) -> EndBiomes {
    if f32_lt(HEIGHT_40, h) {
        EndBiomes::EndHighlands
    } else if f32_le(HEIGHT_0, h) {
        EndBiomes::EndMidlands
    } else if f32_lt(h, HEIGHT_MINUS_20) {
        EndBiomes::SmallEndIslands
    } else {
        EndBiomes::EndBarrens
    }
}

/// The biome of a chunk, given the height pattern measured for it (which the
/// central island ignores).
pub open spec fn chunk_biome(chunk_x: int, chunk_z: int, h: u32) -> EndBiomes {
    if is_central(chunk_x, chunk_z) {
        EndBiomes::TheEnd
    } else {
        height_biome(h)
    }
}

fn is_nan_bits(b: u32) -> (r: bool)
    ensures
        r == f32_is_nan(b),
{
    (b & 0x7F80_0000) == 0x7F80_0000 && (b & 0x007F_FFFF) != 0
}

fn rank_bits(b: u32) -> (r: i64)
    ensures
        r as int == f32_rank(b),
{
    if b < 0x8000_0000 {
        b as i64
    } else {
        0i64 - ((b & 0x7FFF_FFFF) as i64)
    }
}

/// `a < b` on the binary32 values with patterns `a` and `b`.
pub fn height_lt(a: u32, b: u32) -> (r: bool)
    ensures
        r == f32_lt(a, b),
{
    !is_nan_bits(a) && !is_nan_bits(b) && rank_bits(a) < rank_bits(b)
}

/// `a <= b` on the binary32 values with patterns `a` and `b`.
pub fn height_le(a: u32, b: u32) -> (r: bool)
    ensures
        r == f32_le(a, b),
{
    !is_nan_bits(a) && !is_nan_bits(b) && rank_bits(a) <= rank_bits(b)
}

/// Applies the height thresholds in order: above 40, at least 0, below -20,
/// otherwise barrens.
pub fn classify_height(h: u32) -> (r: EndBiomes)
    ensures
        r == height_biome(h),
        r != EndBiomes::Default,
        r != EndBiomes::TheEnd,
{
    if height_lt(HEIGHT_40, h) {
        EndBiomes::EndHighlands
    } else if height_le(HEIGHT_0, h) {
        EndBiomes::EndMidlands
    } else if height_lt(h, HEIGHT_MINUS_20) {
        EndBiomes::SmallEndIslands
    } else {
        EndBiomes::EndBarrens
    }
}

/// Classifies a chunk: the central island is always `TheEnd`, any other
/// chunk goes by the height pattern `h` measured at its centre.
pub fn classify_chunk(chunk_x: i32, chunk_z: i32, h: u32) -> (r: EndBiomes)
    ensures
        r == chunk_biome(chunk_x as int, chunk_z as int, h),
        r != EndBiomes::Default,
{
    if in_central_island(chunk_x, chunk_z) {
        EndBiomes::TheEnd
    } else {
        classify_height(h)
    }
}

/// Whatever the seed and whatever height is measured, a chunk within the
/// central radius is `TheEnd`.
pub proof fn lemma_central_island(chunk_x: int, chunk_z: int, h: u32)
    requires
        chunk_x * chunk_x + chunk_z * chunk_z <= 4096,
    ensures
        chunk_biome(chunk_x, chunk_z, h) == EndBiomes::TheEnd,
{
}

} // verus!
