//! Shared value types: grid locations, fixed-point world coordinates and the
//! pointer probe.
//!
//! World space is measured in milli-units: one grid cell is `MILLI` (1000)
//! milli-units wide, so the tile centered on cell `(x, z)` sits at world
//! point `(1000 * x, 500, 1000 * z)`.  Fixed-point integers stand in for the
//! floating-point coordinates the rendering collaborators work with; the
//! collaborators convert at the boundary.

use vstd::prelude::*;

verus! {

/// Milli-units per grid cell (the fixed-point scale).
pub const MILLI: i64 = 1000;

/// Height of a tile's top face above the ground plane, in milli-units.
pub const TILE_TOP: i64 = 500;

/// Half a grid cell, in milli-units: the rounding offset that maps a tile
/// center to its cell index.
pub const HALF_CELL: i64 = 500;

/// Largest cell coordinate for which a world-space center still fits
/// comfortably in a fixed-point coordinate.
pub const CELL_COORD_MAX: usize = 0x7fff_ffff;

/// A location on the map grid: column (x) then row (z).
#[derive(Clone, Copy, Debug, PartialEq, Eq, Structural)]
pub struct Location(pub usize, pub usize);

/// A point in world space, in milli-units.
#[derive(Clone, Copy, Debug, PartialEq, Eq, Structural)]
pub struct WorldPoint {
    pub x: i64,
    pub y: i64,
    pub z: i64,
}

/// The pointer probe: the last resolved world-space impact point and the
/// center of the tile volume that won the ray cast.
#[derive(Clone, Copy, Debug, PartialEq, Eq, Structural)]
pub struct SelectorLocation {
    pub precise_location: WorldPoint,
    pub tile_location: WorldPoint,
}

/// A display name attached to a map or a unit.
#[derive(Clone, Debug)]
pub struct ObjName(pub String);

impl Location {
    /// The world-space center of this cell's tile volume.
    pub fn world_center(&self) -> (r: WorldPoint)
        requires
            self.0 <= CELL_COORD_MAX,
            self.1 <= CELL_COORD_MAX,
        ensures
            r.x == self.0 as int * MILLI,
            r.y == TILE_TOP,
            r.z == self.1 as int * MILLI,
    {
        WorldPoint { x: (self.0 as i64) * MILLI, y: TILE_TOP, z: (self.1 as i64) * MILLI }
    }
}

} // verus!
