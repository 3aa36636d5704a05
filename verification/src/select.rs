//! Select resolution: converts the current pointer probe into a
//! `UnitOnTile` result event.
//!
//! On a select signal the probe's tile center is converted to integer grid
//! coordinates by flooring after a half-cell offset, then bounds-checked
//! against the grid.  A cell outside the grid is silently dropped — no
//! event is emitted and, since the phase machine only ever reacts to
//! emitted events, the phase is left unchanged.  This mirrors the
//! resolver's no-op policy and is deliberate, not an error.  For a cell
//! inside the grid the occupancy index is consulted: the event carries the
//! occupant and its cell, or neither — there is no partial state.

use vstd::prelude::*;

use crate::directory::UnitDirectory;
use crate::map::GridMap;
use crate::shared::{Location, SelectorLocation, HALF_CELL, MILLI};

verus! {

/// The current selection and targeting state.
#[derive(Clone, Copy, Debug, PartialEq, Eq, Structural)]
pub struct SelectedUnit {
    pub selected_unit: Option<usize>,
    pub selected_loc: Option<Location>,
    pub targeted_unit: Option<usize>,
    pub targeted_loc: Option<Location>,
}

impl Default for SelectedUnit {
    /// Initially nothing is selected or targeted.
    fn default() -> (r: SelectedUnit)
        ensures
            r.selected_unit is None,
            r.selected_loc is None,
            r.targeted_unit is None,
            r.targeted_loc is None,
    {
        SelectedUnit {
            selected_unit: None,
            selected_loc: None,
            targeted_unit: None,
            targeted_loc: None,
        }
    }
}

/// The result of select resolution: the occupant of the selected cell and
/// the cell itself, or neither.
#[derive(Clone, Copy, Debug, PartialEq, Eq, Structural)]
pub struct UnitOnTile(pub Option<usize>, pub Option<Location>);

/// One grid coordinate resolved from a world coordinate in milli-units:
/// `floor(c / 1000 + 1/2)`.
pub open spec fn spec_resolved_coord(c: int) -> int {
    (c + HALF_CELL) / (MILLI as int)
}

impl UnitOnTile {
    /// An occupant-bearing event always carries both fields; an empty one
    /// carries neither.
    pub open spec fn well_formed(self) -> bool {
        self.0 is Some <==> self.1 is Some
    }
}

/// Resolves a select signal against the current probe.  Returns `None` —
/// no event, phase untouched — when the probe's tile center resolves
/// outside the grid; otherwise the emitted event carries the cell's
/// occupant together with the cell, or neither when the cell is empty.
pub fn tile_select(probe: &SelectorLocation, grid: &GridMap, dir: &UnitDirectory) -> (r: Option<
    UnitOnTile,
>)
    requires
        grid.wf(),
        dir.wf(),
        dir.spec_width() == grid.spec_width(),
        dir.spec_height() == grid.spec_height(),
        probe.tile_location.x <= i64::MAX - HALF_CELL,
        probe.tile_location.z <= i64::MAX - HALF_CELL,
    ensures
        ({
            let cx = spec_resolved_coord(probe.tile_location.x as int);
            let cz = spec_resolved_coord(probe.tile_location.z as int);
            match r {
                None => !(0 <= cx < grid.spec_width() && 0 <= cz < grid.spec_height()),
                Some(ev) => {
                    &&& 0 <= cx < grid.spec_width()
                    &&& 0 <= cz < grid.spec_height()
                    &&& ev.0 == dir.spec_occupant(cx, cz)
                    &&& ev.1 == (if dir.spec_occupant(cx, cz) is Some {
                        Some(Location(cx as usize, cz as usize))
                    } else {
                        None::<Location>
                    })
                    &&& ev.well_formed()
                },
            }
        }),
{
    let sx = probe.tile_location.x + HALF_CELL;
    let sz = probe.tile_location.z + HALF_CELL;
    if sx < 0 || sz < 0 {
        proof {
            if sx < 0 {
                assert(sx as int / (MILLI as int) < 0) by (nonlinear_arith)
                    requires
                        sx < 0,
                ;
            }
            if sz < 0 {
                assert(sz as int / (MILLI as int) < 0) by (nonlinear_arith)
                    requires
                        sz < 0,
                ;
            }
        }
        return None;
    }
    let cx = (sx as u64) / (MILLI as u64);
    let cz = (sz as u64) / (MILLI as u64);
    let size = grid.dimensions();
    if cx >= size.0 as u64 || cz >= size.1 as u64 {
        return None;
    }
    let x = cx as usize;
    let z = cz as usize;
    match dir.occupant_at(x, z) {
        Ok(Some(u)) => Some(UnitOnTile(Some(u), Some(Location(x, z)))),
        Ok(None) => Some(UnitOnTile(None, None)),
        Err(_) => {
            proof {
                assert(false);
            }
            None
        },
    }
}

} // verus!
