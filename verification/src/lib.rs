//! Grid-aligned construction on a hexagonal map.
//!
//! The library covers the construction subsystem of a small tower-defense
//! game: converting fractional axial hex coordinates to grid cells
//! (`hex`), the grid of buildable cells (`grid`), the player's gold
//! balance (`economy`), the table of tower definitions (`catalog`), and
//! the transactional pipeline that turns a build request into a committed
//! or rejected outcome (`resolver`).
//!
//! Screen and world positions are floating-point quantities owned by the
//! host engine; callers convert them to fixed-point fractional axial
//! coordinates (`hex::Frac`) before entering the library.

pub mod catalog;
pub mod economy;
pub mod errors;
pub mod grid;
pub mod hex;
pub mod resolver;
