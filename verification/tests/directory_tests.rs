use tactics_core::directory::UnitDirectory;
use tactics_core::errors::MapError;
use tactics_core::map::MapSize;
use tactics_core::shared::{Location, ObjName};
use tactics_core::unit::{Health, Movement, Team, UnitBundle};

fn guinevere(loc: Location) -> UnitBundle {
    UnitBundle {
        unit_name: ObjName("Guinevere".to_string()),
        team: Team(0),
        movement: Movement(5000),
        health: Health::default(),
        loc,
    }
}

#[test]
fn spawn_places_unit_in_occupancy() {
    let mut dir = UnitDirectory::new(MapSize(24, 17));
    let u = dir.spawn(guinevere(Location(7, 9))).unwrap();
    assert_eq!(dir.unit_count(), 1);
    assert_eq!(dir.occupant_at(7, 9), Ok(Some(u)));
    assert_eq!(dir.occupant_at(8, 9), Ok(None));
    let rec = dir.get(u).unwrap();
    assert_eq!(rec.loc, Location(7, 9));
    assert_eq!(rec.unit_name.0, "Guinevere".to_string());
}

#[test]
fn spawn_rejects_out_of_bounds_location() {
    let mut dir = UnitDirectory::new(MapSize(4, 4));
    let r = dir.spawn(guinevere(Location(4, 0)));
    assert_eq!(r.err(), Some(MapError::OutOfBounds));
    assert_eq!(dir.unit_count(), 0);
}

#[test]
fn spawn_rejects_occupied_cell() {
    let mut dir = UnitDirectory::new(MapSize(4, 4));
    dir.spawn(guinevere(Location(1, 1))).unwrap();
    let r = dir.spawn(guinevere(Location(1, 1)));
    assert_eq!(r.err(), Some(MapError::OccupancyConflict));
    assert_eq!(dir.unit_count(), 1);
}

#[test]
fn get_rejects_unknown_unit() {
    let dir = UnitDirectory::new(MapSize(4, 4));
    assert_eq!(dir.get(0).err(), Some(MapError::UnknownUnit));
}

#[test]
fn set_location_moves_unit_and_occupancy_together() {
    let mut dir = UnitDirectory::new(MapSize(24, 17));
    let u = dir.spawn(guinevere(Location(7, 9))).unwrap();
    dir.set_location(u, Location(8, 9)).unwrap();
    assert_eq!(dir.get(u).unwrap().loc, Location(8, 9));
    assert_eq!(dir.occupant_at(8, 9), Ok(Some(u)));
    assert_eq!(dir.occupant_at(7, 9), Ok(None));
}

#[test]
fn set_location_to_same_cell_is_stable() {
    let mut dir = UnitDirectory::new(MapSize(4, 4));
    let u = dir.spawn(guinevere(Location(2, 2))).unwrap();
    dir.set_location(u, Location(2, 2)).unwrap();
    assert_eq!(dir.get(u).unwrap().loc, Location(2, 2));
    assert_eq!(dir.occupant_at(2, 2), Ok(Some(u)));
}

#[test]
fn set_location_rejects_unknown_unit() {
    let mut dir = UnitDirectory::new(MapSize(4, 4));
    assert_eq!(dir.set_location(3, Location(0, 0)).err(), Some(MapError::UnknownUnit));
}

#[test]
fn set_location_rejects_out_of_bounds() {
    let mut dir = UnitDirectory::new(MapSize(4, 4));
    let u = dir.spawn(guinevere(Location(0, 0))).unwrap();
    assert_eq!(dir.set_location(u, Location(0, 4)).err(), Some(MapError::OutOfBounds));
    assert_eq!(dir.get(u).unwrap().loc, Location(0, 0));
    assert_eq!(dir.occupant_at(0, 0), Ok(Some(u)));
}

#[test]
fn set_location_onto_other_unit_is_fatal_conflict() {
    let mut dir = UnitDirectory::new(MapSize(4, 4));
    let a = dir.spawn(guinevere(Location(0, 0))).unwrap();
    let b = dir.spawn(guinevere(Location(1, 0))).unwrap();
    let r = dir.set_location(a, Location(1, 0));
    assert_eq!(r.err(), Some(MapError::OccupancyConflict));
    assert_eq!(dir.get(a).unwrap().loc, Location(0, 0));
    assert_eq!(dir.get(b).unwrap().loc, Location(1, 0));
}

#[test]
fn occupancy_stays_consistent_with_locations() {
    let mut dir = UnitDirectory::new(MapSize(6, 6));
    let a = dir.spawn(guinevere(Location(0, 0))).unwrap();
    let b = dir.spawn(guinevere(Location(5, 5))).unwrap();
    dir.set_location(a, Location(3, 3)).unwrap();
    dir.set_location(b, Location(0, 0)).unwrap();
    for z in 0..6 {
        for x in 0..6 {
            let occ = dir.occupant_at(x, z).unwrap();
            match occ {
                Some(u) => assert_eq!(dir.get(u).unwrap().loc, Location(x, z)),
                None => {
                    assert_ne!(dir.get(a).unwrap().loc, Location(x, z));
                    assert_ne!(dir.get(b).unwrap().loc, Location(x, z));
                }
            }
        }
    }
    assert_ne!(dir.get(a).unwrap().loc, dir.get(b).unwrap().loc);
}

#[test]
fn occupant_at_rejects_out_of_bounds() {
    let dir = UnitDirectory::new(MapSize(4, 4));
    assert_eq!(dir.occupant_at(4, 0).err(), Some(MapError::OutOfBounds));
}
