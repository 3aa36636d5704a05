//! The selection resolver: turns a pointer ray and the tile volumes it hit
//! into a pointer-probe update.
//!
//! The input collaborator casts the ray against every tile bounding volume
//! and reports each hit as a cell plus an intersection distance (in
//! milli-units along the ray).  Among all hits with positive distance the
//! resolver picks the closest; ties are broken towards the lowest row-major
//! cell index (row, then column) so that the outcome is deterministic.  The
//! probe then records the winning tile's center and the precise impact
//! point `origin + direction * distance`.  When nothing was hit the probe
//! keeps its previous value: a deliberate no-op, not an error.

use vstd::prelude::*;

use crate::shared::{Location, SelectorLocation, WorldPoint};

verus! {

/// Largest direction component (in milli-units) the resolver accepts.
pub const DIR_BOUND: i64 = 0x4000_0000;

/// Largest intersection distance (in milli-units) the resolver accepts.
pub const DIST_BOUND: i64 = 0x4000_0000;

/// Largest ray-origin component (in milli-units) the resolver accepts.
pub const ORIGIN_BOUND: i64 = 0x1000_0000_0000_0000;

/// A pointer ray in world space: origin and direction, in milli-units.
#[derive(Clone, Copy, Debug, PartialEq, Eq, Structural)]
pub struct PointerRay {
    pub origin: WorldPoint,
    pub direction: WorldPoint,
}

/// One reported ray/tile-volume intersection: the tile's cell, the
/// intersection distance along the ray and the tile's center.
#[derive(Clone, Copy, Debug, PartialEq, Eq, Structural)]
pub struct TileHit {
    pub cell: Location,
    pub distance: i64,
    pub center: WorldPoint,
}

/// Row-major order on cells: `a` comes no later than `b` when its row is
/// lower, or its column is no higher within the same row.
pub open spec fn rm_precedes(a: Location, b: Location) -> bool {
    a.1 < b.1 || (a.1 == b.1 && a.0 <= b.0)
}

/// `a` wins against `b`: strictly closer, or equally close and no later in
/// row-major order.
pub open spec fn hit_beats(a: TileHit, b: TileHit) -> bool {
    a.distance < b.distance || (a.distance == b.distance && rm_precedes(a.cell, b.cell))
}

/// Whether some hit has positive distance at all.
pub open spec fn spec_any_hit(hits: Seq<TileHit>) -> bool {
    exists|i: int| 0 <= i < hits.len() && hits[i].distance > 0
}

/// Hit `i` is the resolver's winner: it has positive distance and wins
/// against every hit with positive distance.
pub open spec fn is_winner(hits: Seq<TileHit>, i: int) -> bool {
    &&& 0 <= i < hits.len()
    &&& hits[i].distance > 0
    &&& forall|j: int|
        0 <= j < hits.len() && (#[trigger] hits[j]).distance > 0 ==> hit_beats(hits[i], hits[j])
}

/// `dir * dist / 1000` in fixed point, rounded towards zero.
pub open spec fn spec_scaled(dir: int, dist: int) -> int {
    if dir >= 0 {
        (dir * dist) / 1000
    } else {
        -((-dir * dist) / 1000)
    }
}

/// One coordinate of a point along a ray: `base + dir * dist / 1000`.
fn add_scaled(base: i64, dir: i64, dist: i64) -> (r: i64)
    requires
        -ORIGIN_BOUND <= base <= ORIGIN_BOUND,
        -DIR_BOUND <= dir <= DIR_BOUND,
        0 <= dist <= DIST_BOUND,
    ensures
        r == base + spec_scaled(dir as int, dist as int),
{
    if dir >= 0 {
        assert((dir as u64) * (dist as u64) <= (DIR_BOUND as u64) * (DIST_BOUND as u64))
            by (nonlinear_arith)
            requires
                0 <= dir <= DIR_BOUND,
                0 <= dist <= DIST_BOUND,
        ;
        let prod: u64 = (dir as u64) * (dist as u64);
        let q: u64 = prod / 1000;
        assert(q <= prod);
        base + (q as i64)
    } else {
        let neg: i64 = -dir;
        assert(0 < neg <= DIR_BOUND);
        let m: u64 = neg as u64;
        let d: u64 = dist as u64;
        assert(m * d <= (DIR_BOUND as u64) * (DIST_BOUND as u64)) by (nonlinear_arith)
            requires
                0 <= m <= DIR_BOUND as u64,
                0 <= d <= DIST_BOUND as u64,
        ;
        let prod: u64 = m * d;
        let q: u64 = prod / 1000;
        assert(q <= prod);
        base - (q as i64)
    }
}

/// The precise impact point `origin + direction * distance`, with the
/// distance in milli-units along the ray.
pub fn point_on_ray(ray: &PointerRay, dist: i64) -> (r: WorldPoint)
    requires
        -ORIGIN_BOUND <= ray.origin.x <= ORIGIN_BOUND,
        -ORIGIN_BOUND <= ray.origin.y <= ORIGIN_BOUND,
        -ORIGIN_BOUND <= ray.origin.z <= ORIGIN_BOUND,
        -DIR_BOUND <= ray.direction.x <= DIR_BOUND,
        -DIR_BOUND <= ray.direction.y <= DIR_BOUND,
        -DIR_BOUND <= ray.direction.z <= DIR_BOUND,
        0 <= dist <= DIST_BOUND,
    ensures
        r.x == ray.origin.x + spec_scaled(ray.direction.x as int, dist as int),
        r.y == ray.origin.y + spec_scaled(ray.direction.y as int, dist as int),
        r.z == ray.origin.z + spec_scaled(ray.direction.z as int, dist as int),
{
    WorldPoint {
        x: add_scaled(ray.origin.x, ray.direction.x, dist),
        y: add_scaled(ray.origin.y, ray.direction.y, dist),
        z: add_scaled(ray.origin.z, ray.direction.z, dist),
    }
}

/// Recomputes the pointer probe from a ray cast.  Picks the hit with the
/// smallest positive distance, breaking ties towards the lowest row-major
/// cell index, and updates the probe with the winner's center and the
/// precise impact point; returns the winning hit's index.  When no hit has
/// positive distance the probe is left untouched and `None` is returned.
pub fn resolve_probe(ray: &PointerRay, hits: &Vec<TileHit>, probe: &mut SelectorLocation) -> (r:
    Option<usize>)
    requires
        -ORIGIN_BOUND <= ray.origin.x <= ORIGIN_BOUND,
        -ORIGIN_BOUND <= ray.origin.y <= ORIGIN_BOUND,
        -ORIGIN_BOUND <= ray.origin.z <= ORIGIN_BOUND,
        -DIR_BOUND <= ray.direction.x <= DIR_BOUND,
        -DIR_BOUND <= ray.direction.y <= DIR_BOUND,
        -DIR_BOUND <= ray.direction.z <= DIR_BOUND,
        forall|i: int| 0 <= i < hits@.len() ==> 0 <= (#[trigger] hits@[i]).distance <= DIST_BOUND,
    ensures
        match r {
            None => !spec_any_hit(hits@) && *final(probe) == *old(probe),
            Some(w) => {
                &&& is_winner(hits@, w as int)
                &&& final(probe).tile_location == hits@[w as int].center
                &&& final(probe).precise_location.x == ray.origin.x + spec_scaled(
                    ray.direction.x as int,
                    hits@[w as int].distance as int,
                )
                &&& final(probe).precise_location.y == ray.origin.y + spec_scaled(
                    ray.direction.y as int,
                    hits@[w as int].distance as int,
                )
                &&& final(probe).precise_location.z == ray.origin.z + spec_scaled(
                    ray.direction.z as int,
                    hits@[w as int].distance as int,
                )
            },
        },
{
    let mut best: Option<usize> = None;
    let mut i: usize = 0;
    while i < hits.len()
        invariant
            0 <= i <= hits@.len(),
            forall|k: int|
                0 <= k < hits@.len() ==> 0 <= (#[trigger] hits@[k]).distance <= DIST_BOUND,
            match best {
                None => forall|k: int| 0 <= k < i ==> (#[trigger] hits@[k]).distance <= 0,
                Some(b) => b < i && hits@[b as int].distance > 0 && forall|k: int|
                    0 <= k < i && (#[trigger] hits@[k]).distance > 0 ==> hit_beats(
                        hits@[b as int],
                        hits@[k],
                    ),
            },
        decreases hits@.len() - i,
    {
        if hits[i].distance > 0 {
            let replace: bool = match best {
                None => true,
                Some(b) => {
                    let cand = &hits[i];
                    let cur = &hits[b];
                    cand.distance < cur.distance || (cand.distance == cur.distance && (cand.cell.1
                        < cur.cell.1 || (cand.cell.1 == cur.cell.1 && cand.cell.0 < cur.cell.0)))
                },
            };
            if replace {
                best = Some(i);
            }
        }
        i += 1;
    }
    match best {
        None => None,
        Some(b) => {
            probe.tile_location = hits[b].center;
            probe.precise_location = point_on_ray(ray, hits[b].distance);
            Some(b)
        },
    }
}

/// The tie-break is deterministic: among hits on pairwise distinct cells
/// there is at most one winner, so repeated runs over identical input
/// resolve the same tile.
pub proof fn lemma_winner_unique(hits: Seq<TileHit>, i: int, j: int)
    requires
        is_winner(hits, i),
        is_winner(hits, j),
        forall|a: int, b: int|
            0 <= a < b < hits.len() ==> (#[trigger] hits[a]).cell != (#[trigger] hits[b]).cell,
    ensures
        i == j,
{
    assert(hit_beats(hits[i], hits[j]));
    assert(hit_beats(hits[j], hits[i]));
    if i != j {
        assert(hits[i].cell == hits[j].cell);
    }
}

/// Two tile volumes at equal intersection distance: the winner is the one
/// whose cell comes first in row-major order.
pub proof fn lemma_equal_distance_tie_break(hits: Seq<TileHit>, i: int, j: int)
    requires
        is_winner(hits, i),
        0 <= j < hits.len(),
        hits[j].distance == hits[i].distance,
    ensures
        rm_precedes(hits[i].cell, hits[j].cell),
{
    assert(hit_beats(hits[i], hits[j]));
}

} // verus!
