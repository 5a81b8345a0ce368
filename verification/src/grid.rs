//! The grid of hex cells and their buildable/occupied state.
//!
//! `GridStore` owns every cell of the active map, keyed by non-negative
//! axial coordinates inside a fixed rectangular extent. Mutations emit a
//! `TileChanged` notification that rendering consumes to pick the right
//! visual variant; the store itself never depends on a renderer.

use crate::errors::BuildError;
use vstd::pervasive::VecAdditionalExecFns;
use vstd::prelude::*;

verus! {

/// Controls whether a tile can be built on or not.
#[derive(Clone, Copy, PartialEq, Eq, Structural, Debug)]
pub struct Buildable(pub bool);

impl Default for Buildable {
    /// Tiles start out buildable.
    fn default() -> (r: Self)
        ensures
            r.0 == true,
    {
        Buildable(true)
    }
}

/// One grid cell: whether a structure may legally occupy it, and which
/// placed structure (by registry index) occupies it, if any.
#[derive(Clone, Copy, PartialEq, Eq, Structural, Debug)]
pub struct Cell {
    pub buildable: Buildable,
    pub occupant: Option<usize>,
}

/// Notification that a cell's buildable state changed, consumed by
/// rendering to update the tile's visual variant.
#[derive(Clone, Copy, PartialEq, Eq, Structural, Debug)]
pub struct TileChanged {
    pub q: u32,
    pub r: u32,
    pub buildable: bool,
}

/// The fresh state of every cell: buildable and empty.
pub open spec fn spec_default_cell() -> Cell {
    Cell { buildable: Buildable(true), occupant: None }
}

/// All cells of the active map, in row-major order over a
/// `width` x `height` axial extent.
#[derive(Clone, PartialEq, Debug)]
pub struct GridStore {
    pub width: u32,
    pub height: u32,
    pub cells: Vec<Cell>,
}

impl GridStore {
    /// Well-formedness: the cell vector covers the extent exactly, and
    /// an occupied cell is never marked buildable.
    pub open spec fn wf(self) -> bool {
        &&& self.cells@.len() == self.width * self.height
        &&& forall|i: int|
            0 <= i < self.cells@.len() ==> (self.cells@[i].occupant is Some
                ==> !self.cells@[i].buildable.0)
    }

    /// Whether axial (q, r) lies inside the configured extent.
    pub open spec fn in_bounds(self, q: u32, r: u32) -> bool {
        q < self.width && r < self.height
    }

    /// Row-major index of axial (q, r).
    pub open spec fn idx(self, q: u32, r: u32) -> int {
        r * self.width + q
    }

    /// The cell at axial (q, r), which must be in bounds.
    pub open spec fn cell(self, q: u32, r: u32) -> Cell {
        self.cells@[self.idx(q, r)]
    }

    /// The row-major index of an in-bounds coordinate is a valid index
    /// into the cell vector.
    pub proof fn lemma_idx_in_range(self, q: u32, r: u32)
        requires
            self.wf(),
            self.in_bounds(q, r),
        ensures
            0 <= self.idx(q, r) < self.cells@.len(),
    {
        let w = self.width as int;
        let h = self.height as int;
        let qq = q as int;
        let rr = r as int;
        assert(rr * w + qq < w * h) by (nonlinear_arith)
            requires
                0 <= qq < w,
                0 <= rr < h,
        ;
    }

    /// Create a grid covering `width` x `height` cells, all buildable
    /// and unoccupied.
    pub fn new(width: u32, height: u32) -> (r: GridStore)
        requires
            width * height <= u32::MAX,
        ensures
            r.wf(),
            r.width == width,
            r.height == height,
            forall|i: int| 0 <= i < r.cells@.len() ==> r.cells@[i] == spec_default_cell(),
    {
        let total: usize = (width as usize) * (height as usize);
        let mut cells: Vec<Cell> = Vec::new();
        let mut i: usize = 0;
        while i < total
            invariant
                total == width * height,
                i <= total,
                cells@.len() == i,
                forall|j: int| 0 <= j < i ==> cells@[j] == spec_default_cell(),
            decreases total - i,
        {
            cells.push(Cell { buildable: Buildable(true), occupant: None });
            i = i + 1;
        }
        GridStore { width, height, cells }
    }

    /// The cell at (q, r), or `None` if the coordinate is outside the
    /// configured extent.
    pub fn cell_at(&self, q: u32, r: u32) -> (res: Option<Cell>)
        requires
            self.wf(),
        ensures
            self.in_bounds(q, r) ==> res == Some(self.cell(q, r)),
            !self.in_bounds(q, r) ==> res is None,
    {
        if q < self.width && r < self.height {
            proof {
                self.lemma_idx_in_range(q, r);
            }
            // Binds the vector length as a machine integer, so the index
            // arithmetic below is known not to overflow `usize`.
            let _len: usize = self.cells.len();
            let i: usize = (r as usize) * (self.width as usize) + (q as usize);
            Some(self.cells[i])
        } else {
            None
        }
    }

    /// Place the structure with registry index `id` on the cell at
    /// (q, r): fails with `CellNotBuildable` if the cell is not
    /// buildable, or `CellOccupied` if it already has an occupant; on
    /// success sets the occupant, flips the cell to unbuildable, leaves
    /// every other cell unchanged, and reports the new buildable state.
    /// A failed call leaves the grid exactly as it was.
    pub fn set_occupant(&mut self, q: u32, r: u32, id: usize) -> (res: Result<
        TileChanged,
        BuildError,
    >)
        requires
            old(self).wf(),
            old(self).in_bounds(q, r),
        ensures
            final(self).wf(),
            final(self).width == old(self).width,
            final(self).height == old(self).height,
            !old(self).cell(q, r).buildable.0 ==> res == Err::<TileChanged, BuildError>(
                BuildError::CellNotBuildable,
            ) && *final(self) == *old(self),
            old(self).cell(q, r).buildable.0 && old(self).cell(q, r).occupant is Some ==> res
                == Err::<TileChanged, BuildError>(BuildError::CellOccupied) && *final(self) == *old(self),
            old(self).cell(q, r).buildable.0 && old(self).cell(q, r).occupant is None ==> res
                == Ok::<TileChanged, BuildError>(
                (TileChanged { q, r, buildable: false }),
            ) && final(self).cells@ == old(self).cells@.update(
                old(self).idx(q, r),
                (Cell { buildable: Buildable(false), occupant: Some(id) }),
            ),
    {
        proof {
            self.lemma_idx_in_range(q, r);
        }
        // Binds the vector length as a machine integer, so the index
        // arithmetic below is known not to overflow `usize`.
        let _len: usize = self.cells.len();
        let i: usize = (r as usize) * (self.width as usize) + (q as usize);
        let cell = self.cells[i];
        if !cell.buildable.0 {
            Err(BuildError::CellNotBuildable)
        } else if cell.occupant.is_some() {
            Err(BuildError::CellOccupied)
        } else {
            self.cells.set(i, Cell { buildable: Buildable(false), occupant: Some(id) });
            Ok(TileChanged { q, r, buildable: false })
        }
    }

    /// Release the cell at (q, r) when its structure is destroyed:
    /// fails with `CellEmpty` if there is no occupant; on success clears
    /// the occupant, restores the cell to buildable, leaves every other
    /// cell unchanged, and reports the new buildable state. A failed
    /// call leaves the grid exactly as it was.
    pub fn clear_occupant(&mut self, q: u32, r: u32) -> (res: Result<TileChanged, BuildError>)
        requires
            old(self).wf(),
            old(self).in_bounds(q, r),
        ensures
            final(self).wf(),
            final(self).width == old(self).width,
            final(self).height == old(self).height,
            old(self).cell(q, r).occupant is None ==> res == Err::<TileChanged, BuildError>(
                BuildError::CellEmpty,
            ) && *final(self) == *old(self),
            old(self).cell(q, r).occupant is Some ==> res == Ok::<TileChanged, BuildError>(
                (TileChanged { q, r, buildable: true }),
            ) && final(self).cells@ == old(self).cells@.update(
                old(self).idx(q, r),
                spec_default_cell(),
            ),
    {
        proof {
            self.lemma_idx_in_range(q, r);
        }
        // Binds the vector length as a machine integer, so the index
        // arithmetic below is known not to overflow `usize`.
        let _len: usize = self.cells.len();
        let i: usize = (r as usize) * (self.width as usize) + (q as usize);
        let cell = self.cells[i];
        if cell.occupant.is_none() {
            Err(BuildError::CellEmpty)
        } else {
            self.cells.set(i, Cell { buildable: Buildable(true), occupant: None });
            Ok(TileChanged { q, r, buildable: true })
        }
    }
}

} // verus!
