//! The per-tick simulation driver.
//!
//! Producers accumulate at most one pointer-moved ray cast, one select
//! signal and one cancel signal per tick; `run_tick` drains them in the
//! fixed precedence order the design prescribes: pointer-moved resolution
//! recomputes the probe first, select resolution reads the updated probe
//! next, and the phase machine consumes the resulting events last, select
//! results before cancels.  No implicit scheduler ordering is involved:
//! the order is this function's body.

use vstd::prelude::*;

use crate::directory::UnitDirectory;
use crate::map::GridMap;
use crate::phase::{spec_entered, spec_step, PhaseEvent, PhaseMachine, PlayerPhase};
use crate::probe::{
    is_winner, resolve_probe, spec_any_hit, spec_scaled, PointerRay, TileHit, DIR_BOUND,
    DIST_BOUND, ORIGIN_BOUND,
};
use crate::select::{spec_resolved_coord, tile_select, SelectedUnit, UnitOnTile};
use crate::shared::{Location, SelectorLocation, WorldPoint, HALF_CELL};

verus! {

/// What one tick produced for the presentation layer: the select result
/// event (if a select signal was resolved), the phases entered, and the
/// selection state both entry handlers synchronize against — the state
/// after the select step, which the cancel transition has not yet
/// cleared (the handler entering `Field` must still see the unit that is
/// being deselected).
#[derive(Clone, Copy, Debug, PartialEq, Eq, Structural)]
pub struct TickOutcome {
    pub resolved: Option<UnitOnTile>,
    pub entered_after_select: Option<PlayerPhase>,
    pub entered_after_cancel: Option<PlayerPhase>,
    pub selection_after_select: SelectedUnit,
}

/// A world point small enough that select resolution can offset it by a
/// half cell without overflow.
pub open spec fn spec_center_in_range(c: WorldPoint) -> bool {
    c.x <= i64::MAX - HALF_CELL && c.z <= i64::MAX - HALF_CELL
}

/// Runs one simulation tick over the accumulated input signals, in the
/// fixed precedence order: the ray cast (when the pointer moved) updates
/// the probe; a select signal is then resolved against the updated probe
/// and its result event is fed to the phase machine; a cancel signal is
/// fed last.
pub fn run_tick(
    grid: &GridMap,
    dir: &UnitDirectory,
    probe: &mut SelectorLocation,
    machine: &mut PhaseMachine,
    pointer: &Option<(PointerRay, Vec<TileHit>)>,
    select: bool,
    cancel: bool,
) -> (r: TickOutcome)
    requires
        grid.wf(),
        dir.wf(),
        dir.spec_width() == grid.spec_width(),
        dir.spec_height() == grid.spec_height(),
        spec_center_in_range(old(probe).tile_location),
        *pointer matches Some(cast) ==> {
            let (ray, hits) = cast;
            &&& -ORIGIN_BOUND <= ray.origin.x <= ORIGIN_BOUND
            &&& -ORIGIN_BOUND <= ray.origin.y <= ORIGIN_BOUND
            &&& -ORIGIN_BOUND <= ray.origin.z <= ORIGIN_BOUND
            &&& -DIR_BOUND <= ray.direction.x <= DIR_BOUND
            &&& -DIR_BOUND <= ray.direction.y <= DIR_BOUND
            &&& -DIR_BOUND <= ray.direction.z <= DIR_BOUND
            &&& forall|i: int|
                0 <= i < hits@.len() ==> 0 <= (#[trigger] hits@[i]).distance <= DIST_BOUND
            &&& forall|i: int|
                0 <= i < hits@.len() ==> spec_center_in_range((#[trigger] hits@[i]).center)
        },
    ensures
        spec_center_in_range(final(probe).tile_location),
        match *pointer {
            None => *final(probe) == *old(probe),
            Some((ray, hits)) => {
                if spec_any_hit(hits@) {
                    exists|w: int|
                        {
                            &&& #[trigger] is_winner(hits@, w)
                            &&& final(probe).tile_location == hits@[w].center
                            &&& final(probe).precise_location.x == ray.origin.x + spec_scaled(
                                ray.direction.x as int,
                                hits@[w].distance as int,
                            )
                            &&& final(probe).precise_location.y == ray.origin.y + spec_scaled(
                                ray.direction.y as int,
                                hits@[w].distance as int,
                            )
                            &&& final(probe).precise_location.z == ray.origin.z + spec_scaled(
                                ray.direction.z as int,
                                hits@[w].distance as int,
                            )
                        }
                } else {
                    *final(probe) == *old(probe)
                }
            },
        },
        ({
            let cx = spec_resolved_coord(final(probe).tile_location.x as int);
            let cz = spec_resolved_coord(final(probe).tile_location.z as int);
            if !select {
                r.resolved is None
            } else {
                match r.resolved {
                    None => !(0 <= cx < grid.spec_width() && 0 <= cz < grid.spec_height()),
                    Some(ev) => {
                        &&& 0 <= cx < grid.spec_width()
                        &&& 0 <= cz < grid.spec_height()
                        &&& ev.0 == dir.spec_occupant(cx, cz)
                        &&& ev.1 == (if dir.spec_occupant(cx, cz) is Some {
                            Some(Location(cx as usize, cz as usize))
                        } else {
                            None::<Location>
                        })
                    },
                }
            }
        }),
        ({
            let after_select = match r.resolved {
                Some(ev) => spec_step(*old(machine), PhaseEvent::UnitOnTile(ev)),
                None => *old(machine),
            };
            &&& r.entered_after_select == (match r.resolved {
                Some(ev) => spec_entered(*old(machine), PhaseEvent::UnitOnTile(ev)),
                None => None::<PlayerPhase>,
            })
            &&& r.selection_after_select == after_select.selection
            &&& *final(machine) == (if cancel {
                spec_step(after_select, PhaseEvent::Cancel)
            } else {
                after_select
            })
            &&& r.entered_after_cancel == (if cancel {
                spec_entered(after_select, PhaseEvent::Cancel)
            } else {
                None::<PlayerPhase>
            })
        }),
{
    if let Some((ray, hits)) = pointer {
        resolve_probe(ray, hits, probe);
    }
    let resolved: Option<UnitOnTile> = if select {
        tile_select(probe, grid, dir)
    } else {
        None
    };
    let entered_after_select: Option<PlayerPhase> = match resolved {
        Some(ev) => machine.handle_event(PhaseEvent::UnitOnTile(ev)),
        None => None,
    };
    let selection_after_select = machine.selection;
    let entered_after_cancel: Option<PlayerPhase> = if cancel {
        machine.handle_event(PhaseEvent::Cancel)
    } else {
        None
    };
    TickOutcome { resolved, entered_after_select, entered_after_cancel, selection_after_select }
}

} // verus!
