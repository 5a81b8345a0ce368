//! Tests for the hex geometry: cube rounding, its invariant, its
//! tie-break order, and negative-coordinate rejection.

use hex_towers::hex::{cell_from_frac, hex_round, hex_round_cube, Frac, FRAC_ONE};

/// One whole unit in fixed point, as an i64.
const ONE: i64 = FRAC_ONE;
const HALF: i64 = 32768;
const QUARTER: i64 = 16384;

#[test]
fn rounding_invariant_cube_sum_zero() {
    let inputs: [(i64, i64); 8] = [
        (0, 0),
        (QUARTER, QUARTER),
        (-HALF, QUARTER),
        (3 * ONE + 1234, -2 * ONE + 9999),
        (-5 * ONE - 40000, 7 * ONE + 3),
        (HALF, HALF),
        (-1, 1),
        (123456789, -987654321),
    ];
    for (x, y) in inputs {
        let (cx, cy, cz) = hex_round_cube(Frac { v: x }, Frac { v: y });
        assert_eq!(cx + cy + cz, 0, "cube sum must be zero for ({x}, {y})");
    }
}

#[test]
fn rounding_integer_coordinates_unchanged() {
    for (x, y) in [(0i64, 0i64), (2, -1), (7, 3), (-4, -9), (25, 0)] {
        let (cx, cy) = hex_round(Frac { v: x * ONE }, Frac { v: y * ONE });
        assert_eq!((cx, cy), (x, y));
    }
}

#[test]
fn rounding_half_goes_away_from_zero() {
    // x = 0.5, y = 0: errors are (0.5, 0, -0.5), x strictly greatest,
    // so x is recomputed from y and z.
    let (cx, cy, cz) = hex_round_cube(Frac { v: HALF }, Frac { v: 0 });
    assert_eq!((cx, cy, cz), (1, 0, -1));
}

#[test]
fn tie_break_x_not_strictly_greatest_corrects_y() {
    // x = y = 0.25: errors are (-0.25, -0.25, -0.5). The x error does
    // not strictly exceed the y error, and y beats z, so y is the
    // corrected axis.
    let (cx, cy, cz) = hex_round_cube(Frac { v: QUARTER }, Frac { v: QUARTER });
    assert_eq!((cx, cy, cz), (0, 1, -1));
}

#[test]
fn tie_break_y_equals_z_corrects_z() {
    // x = -0.5, y = 0.25, z = 0.25: errors are (-0.5, -0.25, -0.25).
    // Neither x nor y is strictly greatest, so z is the corrected axis.
    let (cx, cy, cz) = hex_round_cube(Frac { v: -HALF }, Frac { v: QUARTER });
    assert_eq!((cx, cy, cz), (-1, 0, 1));
}

#[test]
fn negative_coordinates_give_no_cell() {
    // Axial (-1, 3) is off the grid: no wrapping or clamping to zero.
    assert_eq!(cell_from_frac(Frac { v: -ONE }, Frac { v: 3 * ONE }), None);
    // Slightly negative fractional input rounding to a negative cell.
    assert_eq!(cell_from_frac(Frac { v: -ONE + QUARTER }, Frac { v: 0 }), None);
    // Negative second coordinate alone also rejects.
    assert_eq!(cell_from_frac(Frac { v: 2 * ONE }, Frac { v: -ONE }), None);
}

#[test]
fn non_negative_coordinates_give_the_rounded_cell() {
    assert_eq!(cell_from_frac(Frac { v: ONE }, Frac { v: 3 * ONE }), Some((1, 3)));
    // Near-integer fractional input rounds to the nearest cell.
    assert_eq!(
        cell_from_frac(Frac { v: 2 * ONE + 100 }, Frac { v: 5 * ONE - 100 }),
        Some((2, 5))
    );
    assert_eq!(cell_from_frac(Frac { v: 0 }, Frac { v: 0 }), Some((0, 0)));
}
