//! The closed table of buildable tower kinds and their definitions.
//!
//! Attack range is measured in whole world-transform units and the
//! attack period in milliseconds, so the definitions are exact integer
//! data.

use vstd::prelude::*;

verus! {

/// Marker for tower entities.
#[derive(Clone, Copy, PartialEq, Eq, Structural, Debug)]
pub struct Tower;

/// Gold cost to construct.
#[derive(Clone, Copy, PartialEq, Eq, Structural, Debug)]
pub struct Cost(pub u32);

/// Timer that manages when attacks fire: a repeating period, and how
/// much of the current period has elapsed. A freshly armed timer has
/// nothing elapsed.
#[derive(Clone, Copy, PartialEq, Eq, Structural, Debug)]
pub struct AttackTimer {
    pub period_ms: u32,
    pub elapsed_ms: u32,
}

/// Basic statistics for attacks made by towers.
#[derive(Clone, Copy, PartialEq, Eq, Structural, Debug)]
pub struct AttackStats {
    /// Damage that the tower deals per hit.
    pub damage: u32,
    /// Range, in whole units of the standard transform.
    pub range: u32,
    /// Timer that manages when attacks fire.
    pub attack_timer: AttackTimer,
}

/// The list of all tower types: a closed enumeration, so cost lookup is
/// total and has no error path.
#[derive(Clone, Copy, PartialEq, Eq, Structural, Debug)]
pub enum TowerType {
    Basic,
}

impl Default for TowerType {
    /// The tower type selected to be built before any other choice is
    /// made.
    fn default() -> (r: Self)
        ensures
            r == TowerType::Basic,
    {
        TowerType::Basic
    }
}

/// Everything a newly placed tower carries: its marker, its cost, and
/// its attack statistics.
#[derive(Clone, Copy, PartialEq, Eq, Structural, Debug)]
pub struct TowerBundle {
    pub tower: Tower,
    pub cost: Cost,
    pub attack_stats: AttackStats,
}

/// The immutable definition of each tower type.
pub open spec fn spec_tower_bundle(tower_type: TowerType) -> TowerBundle {
    match tower_type {
        TowerType::Basic => TowerBundle {
            tower: Tower,
            cost: Cost(20),
            attack_stats: AttackStats {
                damage: 10,
                range: 100,
                attack_timer: AttackTimer { period_ms: 10000, elapsed_ms: 0 },
            },
        },
    }
}

/// Gold cost of the given tower type.
pub open spec fn cost_of(tower_type: TowerType) -> u32 {
    spec_tower_bundle(tower_type).cost.0
}

impl TowerBundle {
    /// Create a new tower of the given type with the appropriate values
    /// and a freshly-armed attack timer.
    pub fn new(tower_type: TowerType) -> (r: Self)
        ensures
            r == spec_tower_bundle(tower_type),
    {
        match tower_type {
            TowerType::Basic => TowerBundle {
                tower: Tower,
                cost: Cost(20),
                attack_stats: AttackStats {
                    damage: 10,
                    range: 100,
                    attack_timer: AttackTimer { period_ms: 10000, elapsed_ms: 0 },
                },
            },
        }
    }
}

} // verus!
