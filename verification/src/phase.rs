//! The hierarchical turn-phase state machine.
//!
//! The player sub-phases (`Field`, `Movement`, ...) are only meaningful
//! while the outer turn belongs to the player, which the tagged union
//! `TurnPhase` enforces by construction.  The machine reacts to the two
//! events this design drives: a `UnitOnTile` select result and `Cancel`.
//! From `Field`, a select result carrying a unit enters `Movement` and
//! records the selection; from `Movement`, `Cancel` returns to `Field` and
//! clears the selection.  Every other phase/event pair leaves the state
//! unchanged: the remaining phases (`ActionMenu`, `Action`, `Cutscene`,
//! `Effect`) are declared but have no entry or exit transitions in this
//! design, and stay as explicit dead states.

use vstd::prelude::*;

use crate::directory::UnitDirectory;
use crate::errors::MapError;
use crate::select::{SelectedUnit, UnitOnTile};

verus! {

/// The player-turn sub-phase governing which actions are legal.
#[derive(Clone, Copy, Debug, PartialEq, Eq, Structural)]
pub enum PlayerPhase {
    Cutscene,
    Effect,
    Field,
    Movement,
    ActionMenu,
    Action,
}

impl Default for PlayerPhase {
    /// A player turn starts on the field.
    fn default() -> (r: PlayerPhase)
        ensures
            r == PlayerPhase::Field,
    {
        PlayerPhase::Field
    }
}

/// Whose turn it is: a player sub-phase exists only inside a player turn.
#[derive(Clone, Copy, Debug, PartialEq, Eq, Structural)]
pub enum TurnPhase {
    Player(PlayerPhase),
    Ai,
}

/// An event the phase machine reacts to.
#[derive(Clone, Copy, Debug, PartialEq, Eq, Structural)]
pub enum PhaseEvent {
    UnitOnTile(UnitOnTile),
    Cancel,
}

/// The phase machine: the active turn phase plus the selection state it
/// guards.
#[derive(Clone, Copy, Debug, PartialEq, Eq, Structural)]
pub struct PhaseMachine {
    pub turn: TurnPhase,
    pub selection: SelectedUnit,
}

/// The player sub-phase transition table: from `Field`, a select result
/// carrying a unit enters `Movement`; from `Movement`, `Cancel` returns to
/// `Field`; everything else is a no-op.
pub open spec fn spec_next_phase(p: PlayerPhase, e: PhaseEvent) -> PlayerPhase {
    match (p, e) {
        (PlayerPhase::Field, PhaseEvent::UnitOnTile(ev)) => if ev.0 is Some {
            PlayerPhase::Movement
        } else {
            PlayerPhase::Field
        },
        (PlayerPhase::Movement, PhaseEvent::Cancel) => PlayerPhase::Field,
        (_, _) => p,
    }
}

/// How the selection state reacts: a select result carrying both a unit
/// and its cell, received on the field, becomes the selection; `Cancel`
/// clears selection and target; everything else leaves it unchanged.
pub open spec fn spec_next_selection(p: PlayerPhase, sel: SelectedUnit, e: PhaseEvent) -> SelectedUnit {
    match e {
        PhaseEvent::UnitOnTile(ev) => if p is Field && ev.0 is Some && ev.1 is Some {
            SelectedUnit { selected_unit: ev.0, selected_loc: ev.1, ..sel }
        } else {
            sel
        },
        PhaseEvent::Cancel => SelectedUnit {
            selected_unit: None,
            selected_loc: None,
            targeted_unit: None,
            targeted_loc: None,
        },
    }
}

/// One step of the whole machine.  Events only drive the player turn; an
/// AI turn ignores them.
pub open spec fn spec_step(m: PhaseMachine, e: PhaseEvent) -> PhaseMachine {
    match m.turn {
        TurnPhase::Player(p) => PhaseMachine {
            turn: TurnPhase::Player(spec_next_phase(p, e)),
            selection: spec_next_selection(p, m.selection, e),
        },
        TurnPhase::Ai => m,
    }
}

/// The phase a step entered, when it entered one: `Movement` on the
/// field-select transition, `Field` on the movement-cancel transition.
pub open spec fn spec_entered(m: PhaseMachine, e: PhaseEvent) -> Option<PlayerPhase> {
    match (m.turn, e) {
        (TurnPhase::Player(PlayerPhase::Field), PhaseEvent::UnitOnTile(ev)) => if ev.0 is Some {
            Some(PlayerPhase::Movement)
        } else {
            None
        },
        (TurnPhase::Player(PlayerPhase::Movement), PhaseEvent::Cancel) => Some(PlayerPhase::Field),
        (_, _) => None,
    }
}

impl PhaseMachine {
    /// A fresh machine: a player turn on the field with nothing selected.
    pub fn new() -> (r: PhaseMachine)
        ensures
            r.turn == TurnPhase::Player(PlayerPhase::Field),
            r.selection.selected_unit is None,
            r.selection.selected_loc is None,
            r.selection.targeted_unit is None,
            r.selection.targeted_loc is None,
    {
        PhaseMachine {
            turn: TurnPhase::Player(PlayerPhase::Field),
            selection: SelectedUnit {
                selected_unit: None,
                selected_loc: None,
                targeted_unit: None,
                targeted_loc: None,
            },
        }
    }

    /// Feeds one event to the machine and reports which phase, if any, was
    /// entered, so the caller can synchronize the selected unit's
    /// presentation on entry.
    pub fn handle_event(&mut self, e: PhaseEvent) -> (r: Option<PlayerPhase>)
        ensures
            *final(self) == spec_step(*old(self), e),
            r == spec_entered(*old(self), e),
    {
        match self.turn {
            TurnPhase::Player(p) => {
                let entered: Option<PlayerPhase> = match (p, &e) {
                    (PlayerPhase::Field, PhaseEvent::UnitOnTile(ev)) => {
                        if ev.0.is_some() {
                            self.turn = TurnPhase::Player(PlayerPhase::Movement);
                            if ev.1.is_some() {
                                self.selection.selected_unit = ev.0;
                                self.selection.selected_loc = ev.1;
                            }
                            Some(PlayerPhase::Movement)
                        } else {
                            None
                        }
                    },
                    (PlayerPhase::Movement, PhaseEvent::Cancel) => {
                        self.turn = TurnPhase::Player(PlayerPhase::Field);
                        self.selection = SelectedUnit {
                            selected_unit: None,
                            selected_loc: None,
                            targeted_unit: None,
                            targeted_loc: None,
                        };
                        Some(PlayerPhase::Field)
                    },
                    (_, PhaseEvent::Cancel) => {
                        self.selection = SelectedUnit {
                            selected_unit: None,
                            selected_loc: None,
                            targeted_unit: None,
                            targeted_loc: None,
                        };
                        None
                    },
                    (_, _) => None,
                };
                entered
            },
            TurnPhase::Ai => None,
        }
    }
}

/// Field-to-Movement is exactly one-shot: on the field, a select result
/// carrying a unit and its cell enters `Movement` and makes that unit the
/// selection; the identical select result fired again while already in
/// `Movement` changes nothing.
pub proof fn lemma_field_select_one_shot(m: PhaseMachine, u: usize, l: crate::shared::Location)
    requires
        m.turn == TurnPhase::Player(PlayerPhase::Field),
    ensures
        ({
            let e = PhaseEvent::UnitOnTile(UnitOnTile(Some(u), Some(l)));
            let m1 = spec_step(m, e);
            let m2 = spec_step(m1, e);
            &&& m1.turn == TurnPhase::Player(PlayerPhase::Movement)
            &&& m1.selection.selected_unit == Some(u)
            &&& m1.selection.selected_loc == Some(l)
            &&& m2 == m1
        }),
{
}

/// Cancel is idempotent from the field: firing `Cancel` while the phase is
/// `Field` leaves the phase `Field`, and a second `Cancel` changes nothing
/// at all.
pub proof fn lemma_cancel_idempotent_from_field(m: PhaseMachine)
    requires
        m.turn == TurnPhase::Player(PlayerPhase::Field),
    ensures
        spec_step(m, PhaseEvent::Cancel).turn == TurnPhase::Player(PlayerPhase::Field),
        spec_step(spec_step(m, PhaseEvent::Cancel), PhaseEvent::Cancel) == spec_step(
            m,
            PhaseEvent::Cancel,
        ),
{
}

/// Which logical presentation state a selected unit is in.
#[derive(Clone, Copy, Debug, PartialEq, Eq, Structural)]
pub enum UnitPose {
    Selected,
    Idle,
}

/// Synchronizes the selected unit's presentation on entry to `Movement` or
/// `Field` (the only phases with entry transitions in this design): names
/// the unit and the pose it must show.  It is a fatal consistency bug
/// upstream — reported as `UnknownUnit`, never recovered in place — if no
/// unit is selected, or the selected unit no longer resolves in the
/// directory.
pub fn entry_unit_selected(
    phase: PlayerPhase,
    selection: &SelectedUnit,
    dir: &UnitDirectory,
) -> (r: Result<(usize, UnitPose), MapError>)
    requires
        phase == PlayerPhase::Field || phase == PlayerPhase::Movement,
    ensures
        match r {
            Ok(p) => {
                &&& selection.selected_unit == Some(p.0)
                &&& p.0 < dir.spec_units().len()
                &&& p.1 == (if phase == PlayerPhase::Movement {
                    UnitPose::Selected
                } else {
                    UnitPose::Idle
                })
            },
            Err(e) => e == MapError::UnknownUnit && (selection.selected_unit is None
                || selection.selected_unit->Some_0 >= dir.spec_units().len()),
        },
{
    match selection.selected_unit {
        Some(u) => {
            if u >= dir.unit_count() {
                return Err(MapError::UnknownUnit);
            }
            match phase {
                PlayerPhase::Movement => Ok((u, UnitPose::Selected)),
                _ => Ok((u, UnitPose::Idle)),
            }
        },
        None => Err(MapError::UnknownUnit),
    }
}

/// The animation name a pose maps to: a selected unit shows `selected`
/// while the movement phase is active and `idle` back on the field.
pub fn pose_animation_name(pose: UnitPose) -> (r: String)
    ensures
        pose == UnitPose::Selected ==> r@ == "selected"@,
        pose == UnitPose::Idle ==> r@ == "idle"@,
{
    match pose {
        UnitPose::Selected => String::from_str("selected"),
        UnitPose::Idle => String::from_str("idle"),
    }
}

} // verus!
