//! The tile catalog and the grid map.
//!
//! A `TileList` registers tile archetypes by unique id.  A `GridMap` is a
//! fixed-size matrix of tile ids over such a catalog; construction validates
//! the matrix dimensions and that every stored id exists in the catalog, so
//! an invalid map never becomes active.

use vstd::prelude::*;

use crate::errors::MapError;

verus! {

/// One tile archetype: display name, unique id and movement cost in
/// milli-units (a cost of 1.5 is stored as 1500).
#[derive(Clone, Debug)]
pub struct Tile {
    pub name: String,
    pub id: u32,
    pub mv_cost_milli: u32,
}

/// The tile catalog: a registry of tile archetypes with unique ids.
pub struct TileList {
    entries: Vec<Tile>,
}

/// Grid dimensions: width (columns) then height (rows).
#[derive(Clone, Copy, Debug, PartialEq, Eq, Structural)]
pub struct MapSize(pub usize, pub usize);

/// A raw matrix of tile ids in row-major order: `0[z][x]` is the id of the
/// tile in row `z`, column `x`.
pub struct TileMap(pub Vec<Vec<u32>>);

/// A validated battlefield layout: dimensions plus a tile-id matrix whose
/// every id exists in the catalog it was built against.
pub struct GridMap {
    size: MapSize,
    tiles: Vec<Vec<u32>>,
}

impl TileList {
    /// The registered archetypes, in registration order.
    pub closed spec fn spec_entries(self) -> Seq<Tile> {
        self.entries@
    }

    /// Whether some archetype with this id is registered.
    pub open spec fn spec_contains(self, id: u32) -> bool {
        exists|i: int| 0 <= i < self.spec_entries().len() && self.spec_entries()[i].id == id
    }

    /// Registered ids are unique.
    pub open spec fn wf(self) -> bool {
        forall|i: int, j: int|
            0 <= i < j < self.spec_entries().len() ==> self.spec_entries()[i].id
                != self.spec_entries()[j].id
    }

    /// An empty catalog.
    pub fn new() -> (r: TileList)
        ensures
            r.spec_entries() == Seq::<Tile>::empty(),
            r.wf(),
    {
        TileList { entries: Vec::new() }
    }

    /// How many archetypes are registered.
    pub fn len(&self) -> (n: usize)
        ensures
            n == self.spec_entries().len(),
    {
        self.entries.len()
    }

    /// Whether an archetype with this id is registered.
    pub fn contains_id(&self, id: u32) -> (b: bool)
        ensures
            b == self.spec_contains(id),
    {
        let mut i: usize = 0;
        while i < self.entries.len()
            invariant
                0 <= i <= self.entries.len(),
                forall|k: int| 0 <= k < i ==> self.entries@[k].id != id,
            decreases self.entries.len() - i,
        {
            if self.entries[i].id == id {
                proof {
                    assert(self.spec_entries()[i as int].id == id);
                }
                return true;
            }
            i += 1;
        }
        false
    }

    /// Registers a new archetype; fails with `DuplicateTileId` when the id
    /// is already present, leaving the catalog unchanged.
    pub fn register(&mut self, tile: Tile) -> (r: Result<(), MapError>)
        requires
            old(self).wf(),
        ensures
            final(self).wf(),
            match r {
                Ok(()) => !old(self).spec_contains(tile.id) && final(self).spec_entries() == old(
                    self,
                ).spec_entries().push(tile),
                Err(e) => e == MapError::DuplicateTileId && old(self).spec_contains(tile.id)
                    && *final(self) == *old(self),
            },
    {
        if self.contains_id(tile.id) {
            return Err(MapError::DuplicateTileId);
        }
        self.entries.push(tile);
        proof {
            let pre = old(self).spec_entries();
            let post = self.spec_entries();
            assert forall|i: int, j: int| 0 <= i < j < post.len() implies post[i].id
                != post[j].id by {
                if j == post.len() - 1 {
                    if post[i].id == post[j].id {
                        assert(pre[i].id == tile.id);
                        assert(old(self).spec_contains(tile.id));
                    }
                }
            }
        }
        Ok(())
    }

    /// Looks an archetype up by id; fails with `UnknownTileId` when absent.
    pub fn lookup(&self, id: u32) -> (r: Result<&Tile, MapError>)
        ensures
            match r {
                Ok(t) => t.id == id && (exists|i: int|
                    0 <= i < self.spec_entries().len() && self.spec_entries()[i] == *t),
                Err(e) => e == MapError::UnknownTileId && !self.spec_contains(id),
            },
    {
        let mut i: usize = 0;
        while i < self.entries.len()
            invariant
                0 <= i <= self.entries.len(),
                forall|k: int| 0 <= k < i ==> self.entries@[k].id != id,
            decreases self.entries.len() - i,
        {
            if self.entries[i].id == id {
                proof {
                    assert(self.spec_entries()[i as int].id == id);
                }
                return Ok(&self.entries[i]);
            }
            i += 1;
        }
        Err(MapError::UnknownTileId)
    }
}

/// Whether a matrix has exactly `size.1` rows of `size.0` columns each.
pub open spec fn spec_dims_ok(rows: Seq<Seq<u32>>, size: MapSize) -> bool {
    &&& rows.len() == size.1
    &&& forall|z: int| 0 <= z < rows.len() ==> #[trigger] rows[z].len() == size.0
}

/// Whether every id stored in the matrix is registered in the catalog.
pub open spec fn spec_all_ids_known(rows: Seq<Seq<u32>>, catalog: TileList) -> bool {
    forall|z: int, x: int|
        0 <= z < rows.len() && 0 <= x < rows[z].len() ==> catalog.spec_contains(
            #[trigger] rows[z][x],
        )
}

impl GridMap {
    /// The tile-id matrix, row-major.
    pub closed spec fn spec_rows(self) -> Seq<Seq<u32>> {
        Seq::new(self.tiles@.len(), |z: int| self.tiles@[z]@)
    }

    /// Number of columns.
    pub closed spec fn spec_width(self) -> int {
        self.size.0 as int
    }

    /// Number of rows.
    pub closed spec fn spec_height(self) -> int {
        self.size.1 as int
    }

    /// The id stored at column `x`, row `z`.
    pub open spec fn spec_tile_at(self, x: int, z: int) -> u32 {
        self.spec_rows()[z][x]
    }

    /// Whether a cell lies inside the grid.
    pub open spec fn spec_in_bounds(self, x: int, z: int) -> bool {
        0 <= x < self.spec_width() && 0 <= z < self.spec_height()
    }

    /// The matrix matches the declared dimensions.
    pub open spec fn wf(self) -> bool {
        spec_dims_ok(self.spec_rows(), MapSize(self.spec_width() as usize, self.spec_height() as usize))
    }

    /// Builds a validated map from a raw matrix over a catalog.  Fails with
    /// `DimensionMismatch` when the matrix is not `size.1` rows of `size.0`
    /// columns, and with `UnknownTileId` when some stored id is absent from
    /// the catalog; either failure keeps the map from being created.
    pub fn new(size: MapSize, matrix: TileMap, catalog: &TileList) -> (r: Result<
        GridMap,
        MapError,
    >)
        ensures
            match r {
                Ok(g) => {
                    &&& g.spec_width() == size.0
                    &&& g.spec_height() == size.1
                    &&& spec_dims_ok(g.spec_rows(), size)
                    &&& spec_all_ids_known(g.spec_rows(), *catalog)
                    &&& g.spec_rows() == Seq::new(matrix.0@.len(), |z: int| matrix.0@[z]@)
                    &&& g.wf()
                },
                Err(e) => {
                    let rows = Seq::new(matrix.0@.len(), |z: int| matrix.0@[z]@);
                    ||| (e == MapError::DimensionMismatch && !spec_dims_ok(rows, size))
                    ||| (e == MapError::UnknownTileId && spec_dims_ok(rows, size)
                        && !spec_all_ids_known(rows, *catalog))
                },
            },
    {
        let ghost rows_view = Seq::new(matrix.0@.len(), |z: int| matrix.0@[z]@);
        if matrix.0.len() != size.1 {
            return Err(MapError::DimensionMismatch);
        }
        let mut z: usize = 0;
        while z < matrix.0.len()
            invariant
                0 <= z <= matrix.0.len(),
                rows_view == Seq::new(matrix.0@.len(), |i: int| matrix.0@[i]@),
                forall|k: int| 0 <= k < z ==> #[trigger] rows_view[k].len() == size.0,
            decreases matrix.0.len() - z,
        {
            if matrix.0[z].len() != size.0 {
                proof {
                    assert(rows_view[z as int].len() != size.0);
                }
                return Err(MapError::DimensionMismatch);
            }
            z += 1;
        }
        let mut z: usize = 0;
        while z < matrix.0.len()
            invariant
                0 <= z <= matrix.0.len(),
                rows_view == Seq::new(matrix.0@.len(), |i: int| matrix.0@[i]@),
                spec_dims_ok(rows_view, size),
                forall|k: int, x: int|
                    0 <= k < z && 0 <= x < rows_view[k].len() ==> catalog.spec_contains(
                        #[trigger] rows_view[k][x],
                    ),
            decreases matrix.0.len() - z,
        {
            let mut x: usize = 0;
            while x < matrix.0[z].len()
                invariant
                    0 <= z < matrix.0.len(),
                    0 <= x <= matrix.0@[z as int]@.len(),
                    rows_view == Seq::new(matrix.0@.len(), |i: int| matrix.0@[i]@),
                    spec_dims_ok(rows_view, size),
                    forall|k: int, c: int|
                        0 <= k < z && 0 <= c < rows_view[k].len() ==> catalog.spec_contains(
                            #[trigger] rows_view[k][c],
                        ),
                    forall|c: int|
                        0 <= c < x ==> catalog.spec_contains(#[trigger] rows_view[z as int][c]),
                decreases matrix.0@[z as int]@.len() - x,
            {
                if !catalog.contains_id(matrix.0[z][x]) {
                    proof {
                        assert(!catalog.spec_contains(rows_view[z as int][x as int]));
                    }
                    return Err(MapError::UnknownTileId);
                }
                x += 1;
            }
            z += 1;
        }
        let g = GridMap { size, tiles: matrix.0 };
        proof {
            assert(g.spec_rows() =~= rows_view);
        }
        Ok(g)
    }

    /// The grid dimensions: width (columns) then height (rows).
    pub fn dimensions(&self) -> (r: MapSize)
        ensures
            r.0 == self.spec_width(),
            r.1 == self.spec_height(),
    {
        self.size
    }

    /// The id of the tile at column `x`, row `z`; fails with `OutOfBounds`
    /// when the cell lies outside the grid.
    pub fn tile_at(&self, x: usize, z: usize) -> (r: Result<u32, MapError>)
        requires
            self.wf(),
        ensures
            match r {
                Ok(id) => self.spec_in_bounds(x as int, z as int) && id == self.spec_tile_at(
                    x as int,
                    z as int,
                ),
                Err(e) => e == MapError::OutOfBounds && !self.spec_in_bounds(x as int, z as int),
            },
    {
        if x >= self.size.0 || z >= self.size.1 {
            return Err(MapError::OutOfBounds);
        }
        proof {
            assert(self.spec_rows()[z as int].len() == self.size.0);
            assert(self.spec_rows()[z as int] == self.tiles@[z as int]@);
        }
        Ok(self.tiles[z][x])
    }
}

} // verus!
