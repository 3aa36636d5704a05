use tactics_core::directory::UnitDirectory;
use tactics_core::map::{GridMap, MapSize, Tile, TileList, TileMap};
use tactics_core::phase::{PhaseMachine, PlayerPhase, TurnPhase};
use tactics_core::probe::{PointerRay, TileHit};
use tactics_core::select::UnitOnTile;
use tactics_core::shared::{Location, ObjName, SelectorLocation, WorldPoint};
use tactics_core::tick::run_tick;
use tactics_core::unit::{Health, Movement, Team, UnitBundle};

fn world() -> (GridMap, UnitDirectory) {
    let mut list = TileList::new();
    list.register(Tile { name: "Plain".to_string(), id: 0, mv_cost_milli: 1000 }).unwrap();
    let grid = GridMap::new(MapSize(8, 8), TileMap(vec![vec![0; 8]; 8]), &list).unwrap();
    let mut dir = UnitDirectory::new(MapSize(8, 8));
    dir.spawn(UnitBundle {
        unit_name: ObjName("Guinevere".to_string()),
        team: Team(0),
        movement: Movement(5000),
        health: Health::default(),
        loc: Location(7, 5),
    })
    .unwrap();
    (grid, dir)
}

fn idle_probe() -> SelectorLocation {
    SelectorLocation {
        precise_location: WorldPoint { x: 0, y: 0, z: 0 },
        tile_location: WorldPoint { x: 0, y: 0, z: 0 },
    }
}

fn cast_onto(x: usize, z: usize) -> (PointerRay, Vec<TileHit>) {
    let ray = PointerRay {
        origin: WorldPoint { x: x as i64 * 1000, y: 10500, z: z as i64 * 1000 },
        direction: WorldPoint { x: 0, y: -1000, z: 0 },
    };
    let hits = vec![TileHit {
        cell: Location(x, z),
        distance: 10000,
        center: WorldPoint { x: x as i64 * 1000, y: 500, z: z as i64 * 1000 },
    }];
    (ray, hits)
}

#[test]
fn one_tick_carries_pointer_select_and_phase_in_order() {
    let (grid, dir) = world();
    let mut probe = idle_probe();
    let mut machine = PhaseMachine::new();

    // Pointer, select and cancel all land in the same tick: the select
    // reads the freshly resolved probe, and the cancel is consumed after
    // the select result, returning the machine to the field.
    let cast = Some(cast_onto(7, 5));
    let outcome = run_tick(&grid, &dir, &mut probe, &mut machine, &cast, true, true);

    assert_eq!(probe.tile_location, WorldPoint { x: 7000, y: 500, z: 5000 });
    assert_eq!(outcome.resolved, Some(UnitOnTile(Some(0), Some(Location(7, 5)))));
    assert_eq!(outcome.entered_after_select, Some(PlayerPhase::Movement));
    assert_eq!(outcome.entered_after_cancel, Some(PlayerPhase::Field));
    assert_eq!(outcome.selection_after_select.selected_unit, Some(0));
    assert_eq!(machine.turn, TurnPhase::Player(PlayerPhase::Field));
    assert_eq!(machine.selection.selected_unit, None);
}

#[test]
fn select_without_pointer_reads_the_standing_probe() {
    let (grid, dir) = world();
    let mut probe = idle_probe();
    let mut machine = PhaseMachine::new();

    let cast = Some(cast_onto(7, 5));
    run_tick(&grid, &dir, &mut probe, &mut machine, &cast, false, false);
    assert_eq!(machine.turn, TurnPhase::Player(PlayerPhase::Field));

    let outcome = run_tick(&grid, &dir, &mut probe, &mut machine, &None, true, false);
    assert_eq!(outcome.resolved, Some(UnitOnTile(Some(0), Some(Location(7, 5)))));
    assert_eq!(machine.turn, TurnPhase::Player(PlayerPhase::Movement));
    assert_eq!(machine.selection.selected_loc, Some(Location(7, 5)));
}

#[test]
fn missed_cast_keeps_probe_and_empty_tick_changes_nothing() {
    let (grid, dir) = world();
    let mut probe = idle_probe();
    let mut machine = PhaseMachine::new();

    run_tick(&grid, &dir, &mut probe, &mut machine, &Some(cast_onto(3, 4)), false, false);
    let probe_before = probe;
    let machine_before = machine;

    // A pointer move whose ray hit nothing: the probe persists.
    let miss: Option<(PointerRay, Vec<TileHit>)> = Some((
        PointerRay {
            origin: WorldPoint { x: 0, y: 10500, z: 0 },
            direction: WorldPoint { x: 0, y: -1000, z: 0 },
        },
        Vec::new(),
    ));
    let outcome = run_tick(&grid, &dir, &mut probe, &mut machine, &miss, false, false);
    assert_eq!(probe, probe_before);
    assert_eq!(machine, machine_before);
    assert_eq!(outcome.resolved, None);

    let outcome = run_tick(&grid, &dir, &mut probe, &mut machine, &None, false, false);
    assert_eq!(probe, probe_before);
    assert_eq!(machine, machine_before);
    assert_eq!(outcome.resolved, None);
    assert_eq!(outcome.entered_after_select, None);
    assert_eq!(outcome.entered_after_cancel, None);
}
