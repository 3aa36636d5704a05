use tactics_core::directory::UnitDirectory;
use tactics_core::errors::MapError;
use tactics_core::map::MapSize;
use tactics_core::phase::{
    entry_unit_selected, pose_animation_name, PhaseEvent, PhaseMachine, PlayerPhase, TurnPhase,
    UnitPose,
};
use tactics_core::select::{SelectedUnit, UnitOnTile};
use tactics_core::shared::{Location, ObjName};
use tactics_core::unit::{Health, Movement, Team, UnitBundle};

fn select_event(u: usize, loc: Location) -> PhaseEvent {
    PhaseEvent::UnitOnTile(UnitOnTile(Some(u), Some(loc)))
}

#[test]
fn field_select_enters_movement_once() {
    let mut m = PhaseMachine::new();
    let e = select_event(0, Location(7, 9));

    let entered = m.handle_event(e);
    assert_eq!(entered, Some(PlayerPhase::Movement));
    assert_eq!(m.turn, TurnPhase::Player(PlayerPhase::Movement));
    assert_eq!(m.selection.selected_unit, Some(0));
    assert_eq!(m.selection.selected_loc, Some(Location(7, 9)));

    let again = m.handle_event(e);
    assert_eq!(again, None);
    assert_eq!(m.turn, TurnPhase::Player(PlayerPhase::Movement));
    assert_eq!(m.selection.selected_unit, Some(0));
}

#[test]
fn empty_select_on_field_is_a_no_op() {
    let mut m = PhaseMachine::new();
    let entered = m.handle_event(PhaseEvent::UnitOnTile(UnitOnTile(None, None)));
    assert_eq!(entered, None);
    assert_eq!(m.turn, TurnPhase::Player(PlayerPhase::Field));
    assert_eq!(m.selection.selected_unit, None);
}

#[test]
fn cancel_from_movement_returns_to_field_and_clears_selection() {
    let mut m = PhaseMachine::new();
    m.handle_event(select_event(0, Location(7, 9)));
    let entered = m.handle_event(PhaseEvent::Cancel);
    assert_eq!(entered, Some(PlayerPhase::Field));
    assert_eq!(m.turn, TurnPhase::Player(PlayerPhase::Field));
    assert_eq!(m.selection.selected_unit, None);
    assert_eq!(m.selection.selected_loc, None);
}

#[test]
fn cancel_from_field_leaves_field() {
    let mut m = PhaseMachine::new();
    let entered = m.handle_event(PhaseEvent::Cancel);
    assert_eq!(entered, None);
    assert_eq!(m.turn, TurnPhase::Player(PlayerPhase::Field));
}

#[test]
fn ai_turn_ignores_events() {
    let mut m = PhaseMachine::new();
    m.turn = TurnPhase::Ai;
    let before = m;
    assert_eq!(m.handle_event(select_event(0, Location(1, 1))), None);
    assert_eq!(m, before);
    assert_eq!(m.handle_event(PhaseEvent::Cancel), None);
    assert_eq!(m, before);
}

#[test]
fn entry_sync_names_unit_and_pose() {
    let mut dir = UnitDirectory::new(MapSize(8, 8));
    let u = dir
        .spawn(UnitBundle {
            unit_name: ObjName("Guinevere".to_string()),
            team: Team(0),
            movement: Movement(5000),
            health: Health::default(),
            loc: Location(7, 5),
        })
        .unwrap();
    let sel = SelectedUnit {
        selected_unit: Some(u),
        selected_loc: Some(Location(7, 5)),
        targeted_unit: None,
        targeted_loc: None,
    };
    assert_eq!(entry_unit_selected(PlayerPhase::Movement, &sel, &dir), Ok((u, UnitPose::Selected)));
    assert_eq!(entry_unit_selected(PlayerPhase::Field, &sel, &dir), Ok((u, UnitPose::Idle)));
}

#[test]
fn entry_sync_without_selection_is_fatal() {
    let dir = UnitDirectory::new(MapSize(8, 8));
    let none = SelectedUnit {
        selected_unit: None,
        selected_loc: None,
        targeted_unit: None,
        targeted_loc: None,
    };
    assert_eq!(entry_unit_selected(PlayerPhase::Field, &none, &dir).err(), Some(MapError::UnknownUnit));
    let dangling = SelectedUnit {
        selected_unit: Some(5),
        selected_loc: Some(Location(0, 0)),
        targeted_unit: None,
        targeted_loc: None,
    };
    assert_eq!(
        entry_unit_selected(PlayerPhase::Movement, &dangling, &dir).err(),
        Some(MapError::UnknownUnit)
    );
}

#[test]
fn poses_map_to_animation_names() {
    assert_eq!(pose_animation_name(UnitPose::Selected), "selected".to_string());
    assert_eq!(pose_animation_name(UnitPose::Idle), "idle".to_string());
}
