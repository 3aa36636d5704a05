//! Error taxonomy of the simulation core.
//!
//! Construction-time validation failures (`DuplicateTileId`, `UnknownTileId`,
//! `DimensionMismatch`) are raised once at map load and keep the map from
//! becoming active.  `OutOfBounds` and `UnknownUnit` are recoverable results
//! of direct API misuse.  `OccupancyConflict` signals a broken occupancy
//! invariant upstream and is fatal: callers are expected to halt rather than
//! continue.

use vstd::prelude::*;

verus! {

/// Every failure the simulation core can report.
#[derive(Clone, Copy, Debug, PartialEq, Eq, Structural)]
pub enum MapError {
    /// A tile id was registered twice in the catalog.
    DuplicateTileId,
    /// A tile id is absent from the catalog.
    UnknownTileId,
    /// A cell coordinate lies outside the grid.
    OutOfBounds,
    /// A unit id does not resolve in the unit directory.
    UnknownUnit,
    /// Two distinct units would share one cell.
    OccupancyConflict,
    /// A tile matrix does not have the declared dimensions.
    DimensionMismatch,
}

} // verus!
