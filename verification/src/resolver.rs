//! The construction resolver: a strictly sequential, short-circuiting
//! pipeline that turns one build request into a committed build or a
//! rejection with zero side effects.
//!
//! Per attempt: gate on the trigger event; check affordability of the
//! selected tower; locate the cell under the pointer; validate that it
//! is buildable; then commit the debit, the cell occupation and the
//! registry append as one atomic unit.

use crate::catalog::AttackStats;
use crate::catalog::TowerBundle;
use crate::catalog::TowerType;
use crate::catalog::cost_of;
use crate::catalog::spec_tower_bundle;
use crate::economy::Gold;
use crate::errors::BuildError;
use crate::grid::Buildable;
use crate::grid::Cell;
use crate::grid::GridStore;
use crate::grid::TileChanged;
use crate::hex::AxialFrac;
use crate::hex::cell_from_frac;
use crate::hex::spec_hex_round;
use vstd::prelude::*;

verus! {

/// Notification that a tower was spawned, consumed by the combat
/// subsystem to begin tracking the new structure.
#[derive(Clone, Copy, PartialEq, Eq, Structural, Debug)]
pub struct TowerSpawned {
    pub tower_type: TowerType,
    pub q: u32,
    pub r: u32,
    pub stats: AttackStats,
}

/// What a successful attempt committed: the spawned-tower notification,
/// the tile-changed notification, and the registry index of the new
/// tower.
#[derive(Clone, Copy, PartialEq, Eq, Structural, Debug)]
pub struct BuildReceipt {
    pub spawned: TowerSpawned,
    pub tile: TileChanged,
    pub structure_id: usize,
}

/// The outcome of one tick's construction attempt.
#[derive(Clone, Copy, PartialEq, Eq, Structural, Debug)]
pub enum AttemptOutcome {
    /// The trigger event did not fire this tick; nothing was examined.
    Idle,
    /// Every check passed and the commit completed in full.
    Built(BuildReceipt),
    /// A check failed; no state was touched.
    Rejected(BuildError),
}

/// The grid cell under the pointer: `PointerOutOfBounds` if the pointer
/// is absent, `NoTileUnderCursor` if the rounded axial coordinate is
/// negative or outside the grid extent.
pub open spec fn locate_cell(pointer: Option<AxialFrac>, grid: GridStore) -> Result<
    (u32, u32),
    BuildError,
> {
    if pointer is None {
        Err(BuildError::PointerOutOfBounds)
    } else {
        let p = pointer->0;
        let (cq, cr) = spec_hex_round(p.x.v as int, p.y.v as int);
        if cq < 0 || cr < 0 {
            Err(BuildError::NoTileUnderCursor)
        } else if !grid.in_bounds(cq as u32, cr as u32) {
            Err(BuildError::NoTileUnderCursor)
        } else {
            Ok((cq as u32, cr as u32))
        }
    }
}

/// The cell a triggered attempt resolves to, or the first error the
/// pipeline reports, in pipeline order: affordability, then pointer
/// presence, then cell existence, then buildability.
pub open spec fn attempt_target(
    pointer: Option<AxialFrac>,
    selected: TowerType,
    gold: Gold,
    grid: GridStore,
) -> Result<(u32, u32), BuildError> {
    if cost_of(selected) > gold.0 {
        Err(BuildError::InsufficientFunds)
    } else {
        match locate_cell(pointer, grid) {
            Err(e) => Err(e),
            Ok((cq, cr)) => if !grid.cell(cq, cr).buildable.0 {
                Err(BuildError::CellNotBuildable)
            } else {
                Ok((cq, cr))
            },
        }
    }
}

/// Affordability boundary. With the balance exactly equal to the
/// selected tower's cost, an attempt whose pointer resolves to a
/// buildable cell is not rejected: it succeeds, and the committed debit
/// leaves a balance of exactly zero. With the balance one gold short of
/// the cost, the attempt is rejected with `InsufficientFunds`.
pub proof fn lemma_affordability_boundary(
    pointer: Option<AxialFrac>,
    selected: TowerType,
    exact: Gold,
    short: Gold,
    grid: GridStore,
)
    requires
        exact.0 == cost_of(selected),
        short.0 + 1 == cost_of(selected),
        (locate_cell(pointer, grid) matches Ok(c) && grid.cell(c.0, c.1).buildable.0),
    ensures
        attempt_target(pointer, selected, exact, grid) == locate_cell(pointer, grid),
        attempt_target(pointer, selected, exact, grid) is Ok,
        exact.0 - cost_of(selected) == 0,
        attempt_target(pointer, selected, short, grid) == Err::<(u32, u32), BuildError>(
            BuildError::InsufficientFunds,
        ),
{
}

/// Attempt to build the selected tower at the pointer this tick.
///
/// If the trigger did not fire, the outcome is `Idle`. If any pipeline
/// check fails, the outcome is `Rejected` with that check's error, and
/// the gold balance, every grid cell, and the tower registry are left
/// exactly as they were. If every check passes, the cost is debited,
/// the cell is occupied by the new tower's registry index, the tower is
/// appended to the registry, and the receipt carries both
/// notifications; rejection and commit never mix.
pub fn build_tower(
    triggered: bool,
    pointer: Option<AxialFrac>,
    selected: TowerType,
    gold: &mut Gold,
    grid: &mut GridStore,
    towers: &mut Vec<TowerBundle>,
) -> (outcome: AttemptOutcome)
    requires
        old(grid).wf(),
        pointer is Some ==> pointer->0.in_range(),
    ensures
        final(grid).wf(),
        final(grid).width == old(grid).width,
        final(grid).height == old(grid).height,
        !triggered ==> outcome == AttemptOutcome::Idle,
        (outcome == AttemptOutcome::Idle || outcome matches AttemptOutcome::Rejected(_))
            ==> *final(gold) == *old(gold) && *final(grid) == *old(grid) && *final(towers)
            == *old(towers),
        triggered ==> match attempt_target(pointer, selected, *old(gold), *old(grid)) {
            Err(e) => outcome == AttemptOutcome::Rejected(e),
            Ok((cq, cr)) => outcome == AttemptOutcome::Built(
                (BuildReceipt {
                    spawned: TowerSpawned {
                        tower_type: selected,
                        q: cq,
                        r: cr,
                        stats: spec_tower_bundle(selected).attack_stats,
                    },
                    tile: TileChanged { q: cq, r: cr, buildable: false },
                    structure_id: old(towers)@.len() as usize,
                }),
            ) && final(gold).0 == old(gold).0 - cost_of(selected) && final(grid).cells@ == old(
                grid,
            ).cells@.update(
                old(grid).idx(cq, cr),
                (Cell { buildable: Buildable(false), occupant: Some(old(towers)@.len() as usize) }),
            ) && final(towers)@ == old(towers)@.push(spec_tower_bundle(selected)),
        },
{
    if !triggered {
        return AttemptOutcome::Idle;
    }
    // Determine the cost of the selected tower.
    let bundle = TowerBundle::new(selected);
    let cost = bundle.cost.0;

    // Afford: stop before any cell lookup if gold cannot cover the cost.
    if gold.0 < cost {
        return AttemptOutcome::Rejected(BuildError::InsufficientFunds);
    }

    // Locate: the pointer must be present and resolve to a grid cell.
    let p = match pointer {
        None => { return AttemptOutcome::Rejected(BuildError::PointerOutOfBounds) },
        Some(p) => p,
    };
    let (cq, cr) = match cell_from_frac(p.x, p.y) {
        None => { return AttemptOutcome::Rejected(BuildError::NoTileUnderCursor) },
        Some(c) => c,
    };
    let cell = match grid.cell_at(cq, cr) {
        None => { return AttemptOutcome::Rejected(BuildError::NoTileUnderCursor) },
        Some(cell) => cell,
    };

    // Validate: the cell must be buildable.
    if !cell.buildable.0 {
        return AttemptOutcome::Rejected(BuildError::CellNotBuildable);
    }

    // Commit: debit, occupy and register as one atomic unit. The checks
    // above guarantee that neither mutation can fail halfway.
    let structure_id = towers.len();
    proof {
        // A well-formed grid never marks an occupied cell buildable, so
        // the validated cell has no occupant and occupation cannot fail.
        grid.lemma_idx_in_range(cq, cr);
        assert(grid.cell(cq, cr).occupant is None);
    }
    let _debited = gold.try_debit(cost);
    let tile = match grid.set_occupant(cq, cr, structure_id) {
        Ok(tile) => tile,
        // Unreachable: the cell was just validated as buildable, and a
        // well-formed grid never marks an occupied cell buildable.
        Err(e) => { return AttemptOutcome::Rejected(e) },
    };
    let stats = bundle.attack_stats;
    towers.push(bundle);
    AttemptOutcome::Built(
        BuildReceipt {
            spawned: TowerSpawned { tower_type: selected, q: cq, r: cr, stats },
            tile,
            structure_id,
        },
    )
}

} // verus!
