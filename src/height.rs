//! The integer part of the island height scan: which of the 25 x 25 cells
//! around a point are consulted, and their offsets back to the point. The
//! height itself is binary32 arithmetic over these cells, done by the caller.
use vstd::prelude::*;
use crate::biome::is_central;

verus! {

/// One cell of the scan: its absolute position, and the offset from it back
/// to the point's parity.
#[derive(Debug, Clone, Copy, PartialEq, Eq, Structural)]
pub struct IslandCell {
    pub cell_x: i64,
    pub cell_z: i64,
    pub dx: i64,
    pub dz: i64,
}

/// Half of `v`, rounded toward zero.
pub open spec fn trunc_half(v: int) -> int {
    if v >= 0 {
        v / 2
    } else {
        -((-v) / 2)
    }
}

/// Cells reach this far from the halved point, on each axis.
pub const SCAN_RADIUS: i64 = 12;

/// Cells per row of the scan.
pub const SCAN_WIDTH: i64 = 25;

/// The `i`-th cell of the scan around `(x, z)`, rows by x offset, columns
/// by z offset, each from -12 to 12.
pub open spec fn scan_cell(x: int, z: int, i: int) -> IslandCell {
    let rx = i / 25 - 12;
    let rz = i % 25 - 12;
    IslandCell {
        cell_x: (trunc_half(x) + rx) as i64,
        cell_z: (trunc_half(z) + rz) as i64,
        dx: (x - 2 * trunc_half(x) - 2 * rx) as i64,
        dz: (z - 2 * trunc_half(z) - 2 * rz) as i64,
    }
}

/// The first `n` cells of the scan, those on the central island left out.
pub open spec fn scan_cells(x: int, z: int, n: nat) -> Seq<IslandCell>
    decreases n,
{
    if n == 0 {
        Seq::empty()
    } else {
        let prev = scan_cells(x, z, (n - 1) as nat);
        let c = scan_cell(x, z, n - 1);
        if is_central(c.cell_x as int, c.cell_z as int) {
            prev
        } else {
            prev.push(c)
        }
    }
}

fn half_toward_zero(v: i32) -> (r: i64)
    ensures
        r as int == trunc_half(v as int),
{
    let w = v as i64;
    if w >= 0 {
        w / 2
    } else {
        0 - ((0 - w) / 2)
    }
}

fn cell_in_central(a: i64, b: i64) -> (r: bool)
    requires
        -0x1_0000_0000 <= a <= 0x1_0000_0000,
        -0x1_0000_0000 <= b <= 0x1_0000_0000,
    ensures
        r == is_central(a as int, b as int),
{
    assert(a * a <= 0x1_0000_0000_0000_0000) by (nonlinear_arith)
        requires
            -0x1_0000_0000 <= a <= 0x1_0000_0000,
    ;
    assert(b * b <= 0x1_0000_0000_0000_0000) by (nonlinear_arith)
        requires
            -0x1_0000_0000 <= b <= 0x1_0000_0000,
    ;
    assert(0 <= a * a && 0 <= b * b) by (nonlinear_arith);
    let wa = a as i128;
    let wb = b as i128;
    wa * wa + wb * wb <= 4096
}

/// The cells that the height scan around block `(x, z)` consults, in scan
/// order: every cell of the 25 x 25 neighbourhood of the halved point that
/// lies outside the central island.
pub fn island_candidates(x: i32, z: i32) -> (r: Vec<IslandCell>)
    ensures
        r@ == scan_cells(x as int, z as int, 625),
{
    let half_x = half_toward_zero(x);
    let half_z = half_toward_zero(z);
    let odd_x = x as i64 - 2 * half_x;
    let odd_z = z as i64 - 2 * half_z;
    let mut cells: Vec<IslandCell> = Vec::new();
    let mut i: i64 = 0;
    while i < SCAN_WIDTH * SCAN_WIDTH
        invariant
            0 <= i <= 625,
            half_x as int == trunc_half(x as int),
            half_z as int == trunc_half(z as int),
            odd_x == x - 2 * half_x,
            odd_z == z - 2 * half_z,
            -1 <= odd_x <= 1,
            -1 <= odd_z <= 1,
            cells@ == scan_cells(x as int, z as int, i as nat),
        decreases 625 - i,
    {
        let rx = i / SCAN_WIDTH - SCAN_RADIUS;
        let rz = i % SCAN_WIDTH - SCAN_RADIUS;
        let c = IslandCell {
            cell_x: half_x + rx,
            cell_z: half_z + rz,
            dx: odd_x - 2 * rx,
            dz: odd_z - 2 * rz,
        };
        assert(c == scan_cell(x as int, z as int, i as int));
        if !cell_in_central(c.cell_x, c.cell_z) {
            cells.push(c);
        }
        i = i + 1;
    }
    cells
}

} // verus!
