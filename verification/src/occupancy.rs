//! The occupancy index: a grid-shaped map from cell to the unit standing
//! there.
//!
//! The index is derived state.  It is brought up to date through
//! `apply_location_change`, which reacts to one location-changed
//! notification: it clears the old cell only if that cell still points to
//! the moving unit (a guard against stale, out-of-order notifications), and
//! treats an already-occupied destination as a fatal `OccupancyConflict` —
//! the surrounding gameplay layer must prevent two units from sharing a
//! cell before such a move is ever reported.

use vstd::prelude::*;

use crate::errors::MapError;
use crate::map::MapSize;
use crate::shared::Location;

verus! {

/// cell -> occupying unit, with the same dimensions as the grid map.
pub struct UnitMap {
    width: usize,
    height: usize,
    cells: Vec<Vec<Option<usize>>>,
}

/// The occupancy matrix after clearing the moving unit's old cell: the old
/// cell is cleared only when it still points to that unit.
pub open spec fn spec_clear_stale(
    cells: Seq<Seq<Option<usize>>>,
    u: usize,
    from: Option<Location>,
) -> Seq<Seq<Option<usize>>> {
    match from {
        Some(a) => if cells[a.1 as int][a.0 as int] == Some(u) {
            cells.update(a.1 as int, cells[a.1 as int].update(a.0 as int, None))
        } else {
            cells
        },
        None => cells,
    }
}

impl UnitMap {
    /// Number of columns.
    pub closed spec fn spec_width(self) -> int {
        self.width as int
    }

    /// Number of rows.
    pub closed spec fn spec_height(self) -> int {
        self.height as int
    }

    /// The occupancy matrix, row-major.
    pub closed spec fn spec_cells(self) -> Seq<Seq<Option<usize>>> {
        Seq::new(self.cells@.len(), |z: int| self.cells@[z]@)
    }

    /// The occupant of the cell at column `x`, row `z`.
    pub open spec fn spec_at(self, x: int, z: int) -> Option<usize> {
        self.spec_cells()[z][x]
    }

    /// Whether a cell lies inside the index.
    pub open spec fn spec_in_bounds(self, x: int, z: int) -> bool {
        0 <= x < self.spec_width() && 0 <= z < self.spec_height()
    }

    /// The matrix matches the declared dimensions.
    pub open spec fn wf(self) -> bool {
        &&& self.spec_cells().len() == self.spec_height()
        &&& forall|z: int|
            0 <= z < self.spec_height() ==> #[trigger] self.spec_cells()[z].len()
                == self.spec_width()
    }

    /// An empty index of the given dimensions.
    pub fn new(size: MapSize) -> (r: UnitMap)
        ensures
            r.wf(),
            r.spec_width() == size.0,
            r.spec_height() == size.1,
            forall|x: int, z: int| r.spec_in_bounds(x, z) ==> r.spec_at(x, z) is None,
    {
        let mut cells: Vec<Vec<Option<usize>>> = Vec::new();
        let mut z: usize = 0;
        while z < size.1
            invariant
                0 <= z <= size.1,
                cells@.len() == z,
                forall|k: int| 0 <= k < z ==> (#[trigger] cells@[k])@.len() == size.0,
                forall|k: int, c: int|
                    0 <= k < z && 0 <= c < size.0 ==> #[trigger] cells@[k]@[c] is None,
            decreases size.1 - z,
        {
            let mut row: Vec<Option<usize>> = Vec::new();
            let mut x: usize = 0;
            while x < size.0
                invariant
                    0 <= x <= size.0,
                    row@.len() == x,
                    forall|c: int| 0 <= c < x ==> row@[c] is None,
                decreases size.0 - x,
            {
                row.push(None);
                x += 1;
            }
            cells.push(row);
            z += 1;
        }
        UnitMap { width: size.0, height: size.1, cells }
    }

    /// Read access for every other component: the occupant of a cell;
    /// fails with `OutOfBounds` when the cell lies outside the index.
    pub fn occupant_at(&self, x: usize, z: usize) -> (r: Result<Option<usize>, MapError>)
        requires
            self.wf(),
        ensures
            match r {
                Ok(o) => self.spec_in_bounds(x as int, z as int) && o == self.spec_at(
                    x as int,
                    z as int,
                ),
                Err(e) => e == MapError::OutOfBounds && !self.spec_in_bounds(x as int, z as int),
            },
    {
        if x >= self.width || z >= self.height {
            return Err(MapError::OutOfBounds);
        }
        Ok(self.cells[z][x])
    }

    /// Reacts to one location-changed notification for unit `u` moving from
    /// `from` to `to`: clears the old cell only if it still points to `u`,
    /// then claims the destination.  A destination already held by a
    /// different unit is a fatal `OccupancyConflict`; the index is left in
    /// the cleared state so the caller can halt loudly.
    pub fn apply_location_change(&mut self, u: usize, from: Option<Location>, to: Location) -> (r:
        Result<(), MapError>)
        requires
            old(self).wf(),
            old(self).spec_in_bounds(to.0 as int, to.1 as int),
            from matches Some(a) ==> old(self).spec_in_bounds(a.0 as int, a.1 as int),
        ensures
            final(self).wf(),
            final(self).spec_width() == old(self).spec_width(),
            final(self).spec_height() == old(self).spec_height(),
            ({
                let cleared = spec_clear_stale(old(self).spec_cells(), u, from);
                match r {
                    Ok(()) => !(cleared[to.1 as int][to.0 as int] matches Some(w) && w != u)
                        && final(self).spec_cells() == cleared.update(
                        to.1 as int,
                        cleared[to.1 as int].update(to.0 as int, Some(u)),
                    ),
                    Err(e) => e == MapError::OccupancyConflict && (cleared[to.1 as int][to.0 as int]
                        matches Some(w) && w != u) && final(self).spec_cells() == cleared,
                }
            }),
    {
        let ghost pre = self.spec_cells();
        if let Some(a) = from {
            let stale = match self.cells[a.1][a.0] {
                Some(w) => w == u,
                None => false,
            };
            if stale {
                self.cells[a.1][a.0] = None;
            }
        }
        proof {
            assert(self.spec_cells() =~= spec_clear_stale(pre, u, from)) by {
                assert forall|z: int| 0 <= z < pre.len() implies self.spec_cells()[z]
                    =~= spec_clear_stale(pre, u, from)[z] by {}
            }
        }
        match self.cells[to.1][to.0] {
            Some(w) if w != u => Err(MapError::OccupancyConflict),
            _ => {
                let ghost cleared = self.spec_cells();
                self.cells[to.1][to.0] = Some(u);
                proof {
                    assert(self.spec_cells() =~= cleared.update(
                        to.1 as int,
                        cleared[to.1 as int].update(to.0 as int, Some(u)),
                    )) by {
                        assert forall|z: int| 0 <= z < cleared.len() implies self.spec_cells()[z]
                            =~= cleared.update(
                            to.1 as int,
                            cleared[to.1 as int].update(to.0 as int, Some(u)),
                        )[z] by {}
                    }
                }
                Ok(())
            },
        }
    }
}

} // verus!
