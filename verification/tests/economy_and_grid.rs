//! Tests for the gold balance, the cell grid, and the tower catalog.

use hex_towers::catalog::{AttackTimer, TowerBundle, TowerType};
use hex_towers::economy::Gold;
use hex_towers::errors::BuildError;
use hex_towers::grid::{Buildable, Cell, GridStore, TileChanged};

#[test]
fn gold_defaults_to_500() {
    assert_eq!(Gold::default().0, 500);
}

#[test]
fn try_debit_subtracts_when_covered() {
    let mut gold = Gold(100);
    assert_eq!(gold.try_debit(30), Ok(()));
    assert_eq!(gold.0, 70);
    // Exactly the whole balance can be spent.
    assert_eq!(gold.try_debit(70), Ok(()));
    assert_eq!(gold.0, 0);
}

#[test]
fn try_debit_rejects_without_partial_effect() {
    let mut gold = Gold(10);
    assert_eq!(gold.try_debit(11), Err(BuildError::InsufficientFunds));
    assert_eq!(gold.0, 10);
}

#[test]
fn credit_adds() {
    let mut gold = Gold(480);
    gold.credit(20);
    assert_eq!(gold.0, 500);
}

#[test]
fn buildable_defaults_to_true() {
    assert_eq!(Buildable::default(), Buildable(true));
}

#[test]
fn new_grid_is_all_buildable_and_empty() {
    let grid = GridStore::new(3, 3);
    for q in 0..3 {
        for r in 0..3 {
            assert_eq!(
                grid.cell_at(q, r),
                Some(Cell { buildable: Buildable(true), occupant: None })
            );
        }
    }
    assert_eq!(grid.cell_at(3, 0), None);
    assert_eq!(grid.cell_at(0, 3), None);
}

#[test]
fn set_occupant_marks_cell_and_notifies() {
    let mut grid = GridStore::new(4, 4);
    let note = grid.set_occupant(2, 1, 5).unwrap();
    assert_eq!(note, TileChanged { q: 2, r: 1, buildable: false });
    assert_eq!(
        grid.cell_at(2, 1),
        Some(Cell { buildable: Buildable(false), occupant: Some(5) })
    );
    // Every other cell is untouched.
    assert_eq!(
        grid.cell_at(1, 2),
        Some(Cell { buildable: Buildable(true), occupant: None })
    );
    // A second placement on the same cell fails and changes nothing.
    assert_eq!(grid.set_occupant(2, 1, 6), Err(BuildError::CellNotBuildable));
    assert_eq!(grid.cell_at(2, 1).unwrap().occupant, Some(5));
}

#[test]
fn set_occupant_on_occupied_but_buildable_cell() {
    // A cell with an occupant but still marked buildable can only come
    // from outside the store's own mutations; the direct error for it
    // is CellOccupied.
    let mut grid = GridStore {
        width: 1,
        height: 1,
        cells: vec![Cell { buildable: Buildable(true), occupant: Some(0) }],
    };
    assert_eq!(grid.set_occupant(0, 0, 1), Err(BuildError::CellOccupied));
    assert_eq!(grid.cell_at(0, 0).unwrap().occupant, Some(0));
}

#[test]
fn clear_occupant_restores_buildable() {
    let mut grid = GridStore::new(4, 4);
    grid.set_occupant(3, 3, 9).unwrap();
    let note = grid.clear_occupant(3, 3).unwrap();
    assert_eq!(note, TileChanged { q: 3, r: 3, buildable: true });
    assert_eq!(
        grid.cell_at(3, 3),
        Some(Cell { buildable: Buildable(true), occupant: None })
    );
}

#[test]
fn clear_occupant_on_empty_cell_fails() {
    let mut grid = GridStore::new(4, 4);
    let before = grid.clone();
    assert_eq!(grid.clear_occupant(1, 1), Err(BuildError::CellEmpty));
    assert_eq!(grid, before);
}

#[test]
fn default_selected_tower_type_is_basic() {
    assert_eq!(TowerType::default(), TowerType::Basic);
}

#[test]
fn basic_tower_definition() {
    let bundle = TowerBundle::new(TowerType::Basic);
    assert_eq!(bundle.cost.0, 20);
    assert_eq!(bundle.attack_stats.damage, 10);
    assert_eq!(bundle.attack_stats.range, 100);
    assert_eq!(
        bundle.attack_stats.attack_timer,
        AttackTimer { period_ms: 10000, elapsed_ms: 0 }
    );
}
