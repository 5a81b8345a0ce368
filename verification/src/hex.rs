//! Pure hex-grid geometry: rounding fractional axial coordinates to the
//! nearest hex cell.
//!
//! Axial coordinates (x, y) imply a third cube coordinate z = -x - y, so
//! that every cell satisfies x + y + z = 0. Fractional coordinates are
//! held in signed fixed point: a `Frac` with raw value `v` stands for the
//! rational number `v / FRAC_ONE`.

use vstd::arithmetic::div_mod::lemma_fundamental_div_mod;
use vstd::arithmetic::div_mod::lemma_fundamental_div_mod_converse;
use vstd::arithmetic::div_mod::lemma_mod_division_less_than_divisor;
use vstd::prelude::*;

verus! {

/// Fixed-point scale: one whole hex unit.
pub const FRAC_ONE: i64 = 65536;

/// Half of one fixed-point unit, used for round-to-nearest.
pub const FRAC_HALF: i64 = 32768;

/// Largest magnitude of an axial coordinate the rounding functions accept.
pub const MAX_AXIAL: i64 = 0x80_0000_0000;

/// A fractional axial coordinate component in fixed point:
/// the value is `v / FRAC_ONE`.
#[derive(Clone, Copy, PartialEq, Eq, Structural, Debug)]
pub struct Frac {
    pub v: i64,
}

impl Frac {
    /// The coordinate is small enough that cube expansion and rounding
    /// stay well inside `i64`.
    pub open spec fn in_range(self) -> bool {
        -MAX_AXIAL <= self.v <= MAX_AXIAL
    }

    pub fn new(v: i64) -> (r: Frac)
        ensures
            r.v == v,
    {
        Frac { v }
    }
}

/// A fractional axial coordinate pair.
#[derive(Clone, Copy, PartialEq, Eq, Structural, Debug)]
pub struct AxialFrac {
    pub x: Frac,
    pub y: Frac,
}

impl AxialFrac {
    pub open spec fn in_range(self) -> bool {
        self.x.in_range() && self.y.in_range()
    }

    pub fn new(x: i64, y: i64) -> (r: AxialFrac)
        ensures
            r.x.v == x,
            r.y.v == y,
    {
        AxialFrac { x: Frac { v: x }, y: Frac { v: y } }
    }
}

/// Round a fixed-point value to the nearest whole unit, halves away from
/// zero: the result is the integer nearest to `v / FRAC_ONE`.
pub open spec fn spec_round(v: int) -> int {
    if v >= 0 {
        (v + 32768) / 65536
    } else {
        -((32768 - v) / 65536)
    }
}

/// Signed rounding error of `spec_round`, in fixed-point units:
/// (rounded - original), scaled by `FRAC_ONE`.
pub open spec fn round_err(v: int) -> int {
    spec_round(v) * 65536 - v
}

/// Cube rounding: expand axial (x, y) to cube (x, y, -x - y), round each
/// component to the nearest integer, then recompute the component with
/// the largest signed rounding error from the other two so that the
/// rounded triple again sums to zero. Ties prefer x first, then y.
pub open spec fn spec_hex_round_cube(x: int, y: int) -> (int, int, int) {
    let z = -x - y;
    let rx = spec_round(x);
    let ry = spec_round(y);
    let rz = spec_round(z);
    let dx = round_err(x);
    let dy = round_err(y);
    let dz = round_err(z);
    if dx > dy && dx > dz {
        (-ry - rz, ry, rz)
    } else if dy > dz {
        (rx, -rx - rz, rz)
    } else {
        (rx, ry, -rx - ry)
    }
}

/// The axial pair of the rounded cube triple.
pub open spec fn spec_hex_round(x: int, y: int) -> (int, int) {
    let c = spec_hex_round_cube(x, y);
    (c.0, c.1)
}

/// Round a fixed-point component to the nearest whole unit, halves away
/// from zero.
fn round_frac(v: i64) -> (r: i64)
    requires
        -2 * MAX_AXIAL <= v <= 2 * MAX_AXIAL,
    ensures
        r == spec_round(v as int),
        -0x200_0000 <= r <= 0x200_0000,
{
    if v >= 0 {
        let q: u64 = ((v as u64) + 32768) / 65536;
        proof {
            lemma_fundamental_div_mod(v + 32768, 65536);
            lemma_mod_division_less_than_divisor(v + 32768, 65536);
        }
        q as i64
    } else {
        let nv: u64 = (-v) as u64;
        let q: u64 = (nv + 32768) / 65536;
        proof {
            lemma_fundamental_div_mod(32768 - v, 65536);
            lemma_mod_division_less_than_divisor(32768 - v, 65536);
        }
        -(q as i64)
    }
}

/// Rounds fractional axial coordinates to the nearest hex center and
/// returns the full cube triple, which always sums to zero.
pub fn hex_round_cube(x: Frac, y: Frac) -> (r: (i64, i64, i64))
    requires
        x.in_range(),
        y.in_range(),
    ensures
        (r.0 as int, r.1 as int, r.2 as int) == spec_hex_round_cube(x.v as int, y.v as int),
{
    let z: i64 = -x.v - y.v;
    let rx = round_frac(x.v);
    let ry = round_frac(y.v);
    let rz = round_frac(z);
    let dx: i64 = rx * FRAC_ONE - x.v;
    let dy: i64 = ry * FRAC_ONE - y.v;
    let dz: i64 = rz * FRAC_ONE - z;
    if dx > dy && dx > dz {
        (-ry - rz, ry, rz)
    } else if dy > dz {
        (rx, -rx - rz, rz)
    } else {
        (rx, ry, -rx - ry)
    }
}

/// Takes fractional axial coordinates and rounds them to the nearest hex
/// center, returning the axial pair.
pub fn hex_round(x: Frac, y: Frac) -> (r: (i64, i64))
    requires
        x.in_range(),
        y.in_range(),
    ensures
        (r.0 as int, r.1 as int) == spec_hex_round(x.v as int, y.v as int),
{
    let c = hex_round_cube(x, y);
    (c.0, c.1)
}

/// Returns the grid cell at the given fractional axial coordinates, or
/// `None` if either rounded coordinate is negative: negative coordinates
/// lie outside the finite grid, and are never wrapped or clamped.
pub fn cell_from_frac(x: Frac, y: Frac) -> (r: Option<(u32, u32)>)
    requires
        x.in_range(),
        y.in_range(),
    ensures
        ({
            let (cx, cy) = spec_hex_round(x.v as int, y.v as int);
            if cx < 0 || cy < 0 {
                r is None
            } else {
                r == Some((cx as u32, cy as u32))
            }
        }),
{
    let (cx, cy) = hex_round(x, y);
    if cx < 0 || cy < 0 {
        None
    } else {
        Some((cx as u32, cy as u32))
    }
}

/// The rounded cube triple always satisfies the cube-coordinate
/// invariant: its components sum to exactly zero.
pub proof fn lemma_hex_round_cube_sum(x: int, y: int)
    ensures
        ({
            let c = spec_hex_round_cube(x, y);
            c.0 + c.1 + c.2 == 0
        }),
{
}

/// `spec_round` is exact on whole units: rounding a multiple of
/// `FRAC_ONE` divides out the scale with no error.
proof fn lemma_round_exact(v: int)
    requires
        v % 65536 == 0,
    ensures
        spec_round(v) == v / 65536,
        round_err(v) == 0,
{
    lemma_fundamental_div_mod(v, 65536);
    let q = v / 65536;
    if v >= 0 {
        lemma_fundamental_div_mod_converse(v + 32768, 65536, q, 32768);
    } else {
        lemma_fundamental_div_mod_converse(32768 - v, 65536, -q, 32768);
    }
}

/// Rounding an already-integer coordinate returns it unchanged: on exact
/// multiples of `FRAC_ONE` the rounded axial pair is just the pair of
/// quotients.
pub proof fn lemma_hex_round_idempotent(x: int, y: int)
    requires
        x % 65536 == 0,
        y % 65536 == 0,
    ensures
        spec_hex_round(x, y) == (x / 65536, y / 65536),
{
    let z = -x - y;
    lemma_fundamental_div_mod(x, 65536);
    lemma_fundamental_div_mod(y, 65536);
    lemma_fundamental_div_mod_converse(z, 65536, -(x / 65536) - (y / 65536), 0);
    lemma_round_exact(x);
    lemma_round_exact(y);
    lemma_round_exact(z);
}

/// Tie-break determinism, first case: when the x and y rounding errors
/// are equal and both exceed the z error, x is not strictly greatest, so
/// the y component is the one recomputed from the other two.
pub proof fn lemma_tie_break_corrects_y(x: int, y: int)
    requires
        round_err(x) == round_err(y),
        round_err(y) > round_err(-x - y),
    ensures
        spec_hex_round_cube(x, y) == (spec_round(x), -spec_round(x) - spec_round(-x - y), spec_round(
            -x - y,
        )),
{
}

/// Tie-break determinism, second case: when the y and z rounding errors
/// are equal and both exceed the x error, neither x nor y is strictly
/// greatest, so the z component is the one recomputed.
pub proof fn lemma_tie_break_corrects_z(x: int, y: int)
    requires
        round_err(y) == round_err(-x - y),
        round_err(-x - y) > round_err(x),
    ensures
        spec_hex_round_cube(x, y) == (spec_round(x), spec_round(y), -spec_round(x) - spec_round(y)),
{
}

} // verus!
