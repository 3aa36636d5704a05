use tactics_core::directory::UnitDirectory;
use tactics_core::map::{GridMap, MapSize, Tile, TileList, TileMap};
use tactics_core::select::{tile_select, UnitOnTile};
use tactics_core::shared::{Location, ObjName, SelectorLocation, WorldPoint};
use tactics_core::unit::{Health, Movement, Team, UnitBundle};

fn small_world() -> (GridMap, UnitDirectory) {
    let mut list = TileList::new();
    list.register(Tile { name: "Plain".to_string(), id: 0, mv_cost_milli: 1000 }).unwrap();
    let grid = GridMap::new(MapSize(8, 8), TileMap(vec![vec![0; 8]; 8]), &list).unwrap();
    let mut dir = UnitDirectory::new(MapSize(8, 8));
    dir.spawn(UnitBundle {
        unit_name: ObjName("Guinevere".to_string()),
        team: Team(0),
        movement: Movement(5000),
        health: Health::default(),
        loc: Location(7, 5),
    })
    .unwrap();
    (grid, dir)
}

fn probe_at(x: i64, z: i64) -> SelectorLocation {
    SelectorLocation {
        precise_location: WorldPoint { x, y: 500, z },
        tile_location: WorldPoint { x, y: 500, z },
    }
}

#[test]
fn select_on_occupied_cell_reports_unit_and_cell() {
    let (grid, dir) = small_world();
    let ev = tile_select(&probe_at(7000, 5000), &grid, &dir).unwrap();
    assert_eq!(ev, UnitOnTile(Some(0), Some(Location(7, 5))));
}

#[test]
fn select_rounds_to_nearest_cell_center() {
    let (grid, dir) = small_world();
    let ev = tile_select(&probe_at(7100, 5300), &grid, &dir).unwrap();
    assert_eq!(ev, UnitOnTile(Some(0), Some(Location(7, 5))));
    let ev = tile_select(&probe_at(6499, 4501), &grid, &dir).unwrap();
    assert_eq!(ev, UnitOnTile(None, None));
}

#[test]
fn select_on_empty_cell_reports_neither_unit_nor_cell() {
    let (grid, dir) = small_world();
    let ev = tile_select(&probe_at(3000, 3000), &grid, &dir).unwrap();
    assert_eq!(ev, UnitOnTile(None, None));
}

#[test]
fn out_of_bounds_selection_is_inert() {
    let (grid, dir) = small_world();
    assert_eq!(tile_select(&probe_at(8000, 5000), &grid, &dir), None);
    assert_eq!(tile_select(&probe_at(5000, 7600), &grid, &dir), None);
    assert_eq!(tile_select(&probe_at(-700, 5000), &grid, &dir), None);
    assert_eq!(tile_select(&probe_at(-100000, -100000), &grid, &dir), None);
}
