//! Unit records: identity, team, stats and grid location.

use vstd::prelude::*;

use crate::shared::{Location, ObjName};

verus! {

/// Hit points: maximum, current and temporary.
#[derive(Clone, Copy, Debug, PartialEq, Eq, Structural)]
pub struct Health {
    pub max: u32,
    pub current: u32,
    pub temp: u32,
}

impl Default for Health {
    /// A fresh unit starts at 20 of 20 hit points with no temporary bonus.
    fn default() -> (r: Health)
        ensures
            r.max == 20,
            r.current == 20,
            r.temp == 0,
    {
        Health { max: 20, current: 20, temp: 0 }
    }
}

/// A unit's identity: owning team and per-team serial number.
#[derive(Clone, Copy, Debug, PartialEq, Eq, Structural)]
pub struct UnitID {
    pub team: u32,
    pub id: u32,
}

impl Default for UnitID {
    fn default() -> (r: UnitID)
        ensures
            r.team == 0,
            r.id == 0,
    {
        UnitID { team: 0, id: 0 }
    }
}

/// The team a unit fights for.
#[derive(Clone, Copy, Debug, PartialEq, Eq, Structural)]
pub struct Team(pub u32);

/// Movement range in milli-cells (a range of 5 cells is stored as 5000).
#[derive(Clone, Copy, Debug, PartialEq, Eq, Structural)]
pub struct Movement(pub u32);

/// One placed combatant: display name, team, stats and grid location.
#[derive(Clone, Debug)]
pub struct UnitBundle {
    pub unit_name: ObjName,
    pub team: Team,
    pub movement: Movement,
    pub health: Health,
    pub loc: Location,
}

} // verus!
