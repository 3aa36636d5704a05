//! The unit directory: the authoritative arena of unit records, together
//! with the occupancy index it keeps consistent.
//!
//! Units are addressed by stable integer ids (their arena index).  Every
//! mutation goes through the directory, which is the single writer of the
//! occupancy index, so the central consistency invariant holds after every
//! operation: a cell maps to a unit exactly when that unit's authoritative
//! location is that cell — and therefore no two distinct units ever share
//! a cell.

use vstd::prelude::*;

use crate::errors::MapError;
use crate::map::MapSize;
use crate::occupancy::UnitMap;
use crate::shared::Location;
use crate::unit::UnitBundle;

verus! {

/// Authoritative unit records plus the derived occupancy index.
pub struct UnitDirectory {
    size: MapSize,
    units: Vec<UnitBundle>,
    unit_map: UnitMap,
}

impl UnitDirectory {
    /// The unit records, indexed by unit id.
    pub closed spec fn spec_units(self) -> Seq<UnitBundle> {
        self.units@
    }

    /// The occupancy index.
    pub closed spec fn spec_map(self) -> UnitMap {
        self.unit_map
    }

    /// Number of columns of the battlefield.
    pub closed spec fn spec_width(self) -> int {
        self.size.0 as int
    }

    /// Number of rows of the battlefield.
    pub closed spec fn spec_height(self) -> int {
        self.size.1 as int
    }

    /// Whether a cell lies on the battlefield.
    pub open spec fn spec_in_bounds(self, x: int, z: int) -> bool {
        0 <= x < self.spec_width() && 0 <= z < self.spec_height()
    }

    /// The occupant of a cell.
    pub open spec fn spec_occupant(self, x: int, z: int) -> Option<usize> {
        self.spec_map().spec_at(x, z)
    }

    /// Occupancy-location consistency: a cell maps to a unit exactly when
    /// that unit's record places it there.
    pub open spec fn occupancy_consistent(self) -> bool {
        &&& forall|u: int|
            0 <= u < self.spec_units().len() ==> self.spec_occupant(
                (#[trigger] self.spec_units()[u]).loc.0 as int,
                self.spec_units()[u].loc.1 as int,
            ) == Some(u as usize)
        &&& forall|x: int, z: int|
            self.spec_in_bounds(x, z) && #[trigger] self.spec_occupant(x, z) is Some ==> {
                let u = self.spec_occupant(x, z)->Some_0;
                &&& u < self.spec_units().len()
                &&& self.spec_units()[u as int].loc == Location(x as usize, z as usize)
            }
    }

    /// The directory is well formed: the occupancy index has the grid's
    /// dimensions, every unit stands on the battlefield, and occupancy and
    /// unit locations agree.
    pub open spec fn wf(self) -> bool {
        &&& self.spec_map().wf()
        &&& self.spec_map().spec_width() == self.spec_width()
        &&& self.spec_map().spec_height() == self.spec_height()
        &&& forall|u: int|
            0 <= u < self.spec_units().len() ==> self.spec_in_bounds(
                (#[trigger] self.spec_units()[u]).loc.0 as int,
                self.spec_units()[u].loc.1 as int,
            )
        &&& self.occupancy_consistent()
    }

    /// An empty directory over a battlefield of the given dimensions.
    pub fn new(size: MapSize) -> (r: UnitDirectory)
        ensures
            r.wf(),
            r.spec_width() == size.0,
            r.spec_height() == size.1,
            r.spec_units() == Seq::<UnitBundle>::empty(),
            forall|x: int, z: int| r.spec_in_bounds(x, z) ==> r.spec_occupant(x, z) is None,
    {
        let unit_map = UnitMap::new(size);
        let r = UnitDirectory { size, units: Vec::new(), unit_map };
        proof {
            assert forall|x: int, z: int| r.spec_in_bounds(x, z) implies #[trigger] r.spec_occupant(
                x,
                z,
            ) is None by {
                assert(unit_map.spec_in_bounds(x, z));
                assert(unit_map.spec_at(x, z) is None);
            }
            assert(r.spec_units() =~= Seq::<UnitBundle>::empty());
        }
        r
    }

    /// How many units have been spawned.
    pub fn unit_count(&self) -> (n: usize)
        ensures
            n == self.spec_units().len(),
    {
        self.units.len()
    }

    /// The battlefield dimensions the directory was created with.
    pub fn dimensions(&self) -> (r: MapSize)
        ensures
            r.0 == self.spec_width(),
            r.1 == self.spec_height(),
    {
        self.size
    }

    /// Looks a unit up by id; fails with `UnknownUnit` when the id does not
    /// resolve.
    pub fn get(&self, unit_id: usize) -> (r: Result<&UnitBundle, MapError>)
        ensures
            match r {
                Ok(rec) => unit_id < self.spec_units().len() && *rec == self.spec_units()[unit_id as int],
                Err(e) => e == MapError::UnknownUnit && unit_id >= self.spec_units().len(),
            },
    {
        if unit_id >= self.units.len() {
            return Err(MapError::UnknownUnit);
        }
        Ok(&self.units[unit_id])
    }

    /// The occupant of a cell; fails with `OutOfBounds` when the cell lies
    /// outside the battlefield.  A reported occupant always resolves in the
    /// directory and stands exactly there.
    pub fn occupant_at(&self, x: usize, z: usize) -> (r: Result<Option<usize>, MapError>)
        requires
            self.wf(),
        ensures
            match r {
                Ok(o) => {
                    &&& self.spec_in_bounds(x as int, z as int)
                    &&& o == self.spec_occupant(x as int, z as int)
                    &&& o matches Some(u) ==> u < self.spec_units().len()
                        && self.spec_units()[u as int].loc == Location(x, z)
                },
                Err(e) => e == MapError::OutOfBounds && !self.spec_in_bounds(x as int, z as int),
            },
    {
        self.unit_map.occupant_at(x, z)
    }

    /// Places a new unit and returns its stable id.  Fails with
    /// `OutOfBounds` when the record's location lies outside the
    /// battlefield, and with `OccupancyConflict` when the cell is already
    /// held; either failure leaves the directory unchanged.
    pub fn spawn(&mut self, record: UnitBundle) -> (r: Result<usize, MapError>)
        requires
            old(self).wf(),
        ensures
            final(self).wf(),
            final(self).spec_width() == old(self).spec_width(),
            final(self).spec_height() == old(self).spec_height(),
            match r {
                Ok(u) => {
                    &&& old(self).spec_in_bounds(record.loc.0 as int, record.loc.1 as int)
                    &&& old(self).spec_occupant(record.loc.0 as int, record.loc.1 as int) is None
                    &&& u == old(self).spec_units().len()
                    &&& final(self).spec_units() == old(self).spec_units().push(record)
                    &&& final(self).spec_occupant(record.loc.0 as int, record.loc.1 as int)
                        == Some(u)
                    &&& forall|x: int, z: int|
                        old(self).spec_in_bounds(x, z) && !(x == record.loc.0 && z == record.loc.1)
                            ==> #[trigger] final(self).spec_occupant(x, z) == old(
                            self,
                        ).spec_occupant(x, z)
                },
                Err(e) => *final(self) == *old(self) && ((e == MapError::OutOfBounds && !old(
                    self,
                ).spec_in_bounds(record.loc.0 as int, record.loc.1 as int)) || (e
                    == MapError::OccupancyConflict && old(self).spec_in_bounds(
                    record.loc.0 as int,
                    record.loc.1 as int,
                ) && old(self).spec_occupant(record.loc.0 as int, record.loc.1 as int) is Some)),
            },
    {
        if record.loc.0 >= self.size.0 || record.loc.1 >= self.size.1 {
            return Err(MapError::OutOfBounds);
        }
        let occupant = match self.unit_map.occupant_at(record.loc.0, record.loc.1) {
            Ok(o) => o,
            Err(_) => None,
        };
        if occupant.is_some() {
            return Err(MapError::OccupancyConflict);
        }
        let u = self.units.len();
        let loc = record.loc;
        self.units.push(record);
        let res = self.unit_map.apply_location_change(u, None, loc);
        proof {
            assert(res is Ok);
            let pre = old(self).spec_map().spec_cells();
            let post = self.spec_map().spec_cells();
            assert(post == pre.update(
                loc.1 as int,
                pre[loc.1 as int].update(loc.0 as int, Some(u)),
            ));
            assert forall|x: int, z: int|
                self.spec_in_bounds(x, z) && !(x == loc.0 && z == loc.1) implies #[trigger] self
                .spec_occupant(x, z) == old(self).spec_occupant(x, z) by {
                if z != loc.1 {
                    assert(post[z] == pre[z]);
                } else {
                    assert(post[z][x] == pre[z][x]);
                }
            }
            assert(self.wf()) by {
                assert forall|v: int|
                    0 <= v < self.spec_units().len() implies self.spec_in_bounds(
                    (#[trigger] self.spec_units()[v]).loc.0 as int,
                    self.spec_units()[v].loc.1 as int,
                ) && self.spec_occupant(
                    self.spec_units()[v].loc.0 as int,
                    self.spec_units()[v].loc.1 as int,
                ) == Some(v as usize) by {
                    if v < u {
                        assert(self.spec_units()[v] == old(self).spec_units()[v]);
                        let vloc = old(self).spec_units()[v].loc;
                        assert(old(self).spec_occupant(vloc.0 as int, vloc.1 as int) == Some(
                            v as usize,
                        ));
                        assert(!(vloc.0 == loc.0 && vloc.1 == loc.1));
                        assert(self.spec_occupant(vloc.0 as int, vloc.1 as int) == old(
                            self,
                        ).spec_occupant(vloc.0 as int, vloc.1 as int));
                    } else {
                        assert(self.spec_units()[v] == record);
                    }
                }
                assert forall|x: int, z: int|
                    self.spec_in_bounds(x, z) && #[trigger] self.spec_occupant(x, z) is Some implies {
                    let w = self.spec_occupant(x, z)->Some_0;
                    &&& w < self.spec_units().len()
                    &&& self.spec_units()[w as int].loc == Location(x as usize, z as usize)
                } by {
                    if x == loc.0 && z == loc.1 {
                        assert(self.spec_occupant(x, z) == Some(u));
                        assert(self.spec_units()[u as int] == record);
                    } else {
                        assert(self.spec_occupant(x, z) == old(self).spec_occupant(x, z));
                        let w = old(self).spec_occupant(x, z)->Some_0;
                        assert(self.spec_units()[w as int] == old(self).spec_units()[w as int]);
                    }
                }
            }
        }
        match res {
            Ok(()) => Ok(u),
            Err(e) => {
                proof {
                    assert(false);
                }
                Err(e)
            },
        }
    }

    /// Moves a unit to a new cell, updating the occupancy index in the same
    /// step.  Fails with `UnknownUnit` when the id does not resolve, with
    /// `OutOfBounds` when the target cell lies outside the battlefield, and
    /// with the fatal `OccupancyConflict` when a different unit already
    /// holds the target; every failure leaves the directory unchanged.
    pub fn set_location(&mut self, unit_id: usize, loc: Location) -> (r: Result<(), MapError>)
        requires
            old(self).wf(),
        ensures
            final(self).wf(),
            final(self).spec_width() == old(self).spec_width(),
            final(self).spec_height() == old(self).spec_height(),
            match r {
                Ok(()) => {
                    &&& unit_id < old(self).spec_units().len()
                    &&& old(self).spec_in_bounds(loc.0 as int, loc.1 as int)
                    &&& !(old(self).spec_occupant(loc.0 as int, loc.1 as int) matches Some(w) && w
                        != unit_id)
                    &&& final(self).spec_units() == old(self).spec_units().update(
                        unit_id as int,
                        UnitBundle { loc, ..old(self).spec_units()[unit_id as int] },
                    )
                    &&& final(self).spec_occupant(loc.0 as int, loc.1 as int) == Some(unit_id)
                    &&& forall|x: int, z: int|
                        old(self).spec_in_bounds(x, z) && !(x == loc.0 && z == loc.1) ==> #[trigger] final(self).spec_occupant(x, z) == (if x == old(self).spec_units()[unit_id as int].loc.0
                            && z == old(self).spec_units()[unit_id as int].loc.1 {
                            None
                        } else {
                            old(self).spec_occupant(x, z)
                        })
                },
                Err(e) => *final(self) == *old(self) && ((e == MapError::UnknownUnit && unit_id
                    >= old(self).spec_units().len()) || (e == MapError::OutOfBounds && unit_id
                    < old(self).spec_units().len() && !old(self).spec_in_bounds(
                    loc.0 as int,
                    loc.1 as int,
                )) || (e == MapError::OccupancyConflict && unit_id < old(self).spec_units().len()
                    && old(self).spec_in_bounds(loc.0 as int, loc.1 as int) && (old(
                    self,
                ).spec_occupant(loc.0 as int, loc.1 as int) matches Some(w) && w != unit_id))),
            },
    {
        if unit_id >= self.units.len() {
            return Err(MapError::UnknownUnit);
        }
        if loc.0 >= self.size.0 || loc.1 >= self.size.1 {
            return Err(MapError::OutOfBounds);
        }
        let occupant = match self.unit_map.occupant_at(loc.0, loc.1) {
            Ok(o) => o,
            Err(_) => None,
        };
        match occupant {
            Some(w) if w != unit_id => {
                return Err(MapError::OccupancyConflict);
            },
            _ => {},
        }
        let old_loc = self.units[unit_id].loc;
        self.units[unit_id].loc = loc;
        let res = self.unit_map.apply_location_change(unit_id, Some(old_loc), loc);
        proof {
            let pre = old(self).spec_map().spec_cells();
            let post = self.spec_map().spec_cells();
            let cleared = crate::occupancy::spec_clear_stale(pre, unit_id, Some(old_loc));
            assert(pre[old_loc.1 as int][old_loc.0 as int] == Some(unit_id));
            assert(cleared == pre.update(
                old_loc.1 as int,
                pre[old_loc.1 as int].update(old_loc.0 as int, None),
            ));
            assert(cleared[loc.1 as int][loc.0 as int] matches Some(w) ==> w == unit_id) by {
                if loc.1 == old_loc.1 {
                    assert(cleared[loc.1 as int] == pre[old_loc.1 as int].update(
                        old_loc.0 as int,
                        None,
                    ));
                }
            }
            assert(res is Ok);
            assert(post == cleared.update(
                loc.1 as int,
                cleared[loc.1 as int].update(loc.0 as int, Some(unit_id)),
            ));
            assert(self.spec_occupant(loc.0 as int, loc.1 as int) == Some(unit_id));
            assert forall|x: int, z: int|
                self.spec_in_bounds(x, z) && !(x == loc.0 && z == loc.1) implies #[trigger] self
                .spec_occupant(x, z) == (if x == old_loc.0 && z == old_loc.1 {
                None
            } else {
                old(self).spec_occupant(x, z)
            }) by {
                assert(post[z] == cleared.update(
                    loc.1 as int,
                    cleared[loc.1 as int].update(loc.0 as int, Some(unit_id)),
                )[z]);
                if z == loc.1 {
                    assert(post[z][x] == cleared[z][x]);
                } else {
                    assert(post[z] == cleared[z]);
                }
                if z == old_loc.1 {
                    assert(cleared[z] == pre[z].update(old_loc.0 as int, None));
                } else {
                    assert(cleared[z] == pre[z]);
                }
            }
            assert(self.wf()) by {
                assert forall|v: int|
                    0 <= v < self.spec_units().len() implies self.spec_in_bounds(
                    (#[trigger] self.spec_units()[v]).loc.0 as int,
                    self.spec_units()[v].loc.1 as int,
                ) && self.spec_occupant(
                    self.spec_units()[v].loc.0 as int,
                    self.spec_units()[v].loc.1 as int,
                ) == Some(v as usize) by {
                    if v != unit_id {
                        assert(self.spec_units()[v] == old(self).spec_units()[v]);
                        let vloc = old(self).spec_units()[v].loc;
                        assert(old(self).spec_occupant(vloc.0 as int, vloc.1 as int) == Some(
                            v as usize,
                        ));
                        assert(!(vloc.0 == loc.0 && vloc.1 == loc.1));
                        assert(!(vloc.0 == old_loc.0 && vloc.1 == old_loc.1));
                        assert(self.spec_occupant(vloc.0 as int, vloc.1 as int) == old(
                            self,
                        ).spec_occupant(vloc.0 as int, vloc.1 as int));
                    } else {
                        assert(self.spec_units()[v].loc == loc);
                    }
                }
                assert forall|x: int, z: int|
                    self.spec_in_bounds(x, z) && #[trigger] self.spec_occupant(x, z) is Some implies {
                    let u = self.spec_occupant(x, z)->Some_0;
                    &&& u < self.spec_units().len()
                    &&& self.spec_units()[u as int].loc == Location(x as usize, z as usize)
                } by {
                    if x == loc.0 && z == loc.1 {
                        assert(self.spec_occupant(x, z) == Some(unit_id));
                        assert(self.spec_units()[unit_id as int].loc == loc);
                    } else if x == old_loc.0 && z == old_loc.1 {
                        assert(self.spec_occupant(x, z) is None);
                    } else {
                        assert(self.spec_occupant(x, z) == old(self).spec_occupant(x, z));
                        let w = old(self).spec_occupant(x, z)->Some_0;
                        assert(w != unit_id);
                        assert(self.spec_units()[w as int] == old(self).spec_units()[w as int]);
                    }
                }
            }
        }
        match res {
            Ok(()) => Ok(()),
            Err(e) => {
                proof {
                    assert(false);
                }
                Err(e)
            },
        }
    }

    /// At most one occupant per cell: two unit ids whose records report the
    /// same location are the same unit.
    pub proof fn lemma_at_most_one_occupant(self, u: usize, v: usize)
        requires
            self.wf(),
            u < self.spec_units().len(),
            v < self.spec_units().len(),
            self.spec_units()[u as int].loc == self.spec_units()[v as int].loc,
        ensures
            u == v,
    {
        let loc = self.spec_units()[u as int].loc;
        assert(self.spec_occupant(loc.0 as int, loc.1 as int) == Some(u));
        assert(self.spec_occupant(loc.0 as int, loc.1 as int) == Some(v));
    }

    /// Occupancy-location consistency, cell by cell: a cell maps to a unit
    /// exactly when that unit's authoritative location is that cell.
    pub proof fn lemma_occupancy_matches_location(self, x: int, z: int, u: usize)
        requires
            self.wf(),
            self.spec_in_bounds(x, z),
            u < self.spec_units().len(),
        ensures
            self.spec_occupant(x, z) == Some(u) <==> self.spec_units()[u as int].loc == Location(
                x as usize,
                z as usize,
            ),
    {
        if self.spec_units()[u as int].loc == Location(x as usize, z as usize) {
            assert(self.spec_occupant(x, z) == Some(u));
        }
    }
}

} // verus!
