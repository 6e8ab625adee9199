//! The collision resolver: each tick, every laser/hazard pair and the
//! ship/hazard pairs are tested for overlap against the start-of-tick
//! entities, the doomed entities are marked, and one sweep removes them.
//! Marking first makes the outcome independent of pair order and removes
//! nothing twice; the ship yields at most one destruction event per tick.

use vstd::prelude::*;
use crate::geom::boxes_overlap_spec;
use crate::geom::boxes_overlap;
use crate::masks::{
    keep_mask, count_true, lemma_keep_mask_push, lemma_count_true_push,
};
use crate::ship::ShipDestroyed;
use crate::controls::{LaserEntity, laser_wf};
use crate::world::{World, WorldView, TickOutcome, Hazard, hazard_wf};

verus! {

/// Laser `i` overlaps hazard `j`.
pub open spec fn laser_hits_hazard(v: WorldView, i: int, j: int) -> bool {
    boxes_overlap_spec(
        v.lasers[i].transform.translation,
        v.lasers[i].collider,
        v.hazards[j].position,
        v.hazards[j].collider,
    )
}

/// The alive ship overlaps hazard `j`.
pub open spec fn ship_overlaps_hazard(v: WorldView, j: int) -> bool {
    match v.ship {
        Option::Some(s) => boxes_overlap_spec(
            s.transform.translation,
            s.collider,
            v.hazards[j].position,
            v.hazards[j].collider,
        ),
        Option::None => false,
    }
}

/// Some laser overlaps hazard `j`.
pub open spec fn hazard_hit_by_laser(v: WorldView, j: int) -> bool {
    exists|i: int| 0 <= i < v.lasers.len() && laser_hits_hazard(v, i, j)
}

/// Some hazard overlaps the alive ship.
pub open spec fn ship_hit(v: WorldView) -> bool {
    exists|j: int| 0 <= j < v.hazards.len() && ship_overlaps_hazard(v, j)
}

/// Hazard `j` is removed this tick: a laser or the ship overlaps it.
pub open spec fn hazard_doomed(v: WorldView, j: int) -> bool {
    hazard_hit_by_laser(v, j) || ship_overlaps_hazard(v, j)
}

/// Laser `i` is removed this tick: it overlaps some hazard.
pub open spec fn laser_doomed(v: WorldView, i: int) -> bool {
    exists|j: int| 0 <= j < v.hazards.len() && laser_hits_hazard(v, i, j)
}

/// Which hazards stay.
pub open spec fn hazard_keep(v: WorldView) -> Seq<bool> {
    Seq::new(v.hazards.len(), |j: int| !hazard_doomed(v, j))
}

/// Which lasers stay.
pub open spec fn laser_keep(v: WorldView) -> Seq<bool> {
    Seq::new(v.lasers.len(), |i: int| !laser_doomed(v, i))
}

/// Which hazards a laser destroyed, for the score collaborator.
pub open spec fn laser_credit(v: WorldView) -> Seq<bool> {
    Seq::new(v.hazards.len(), |j: int| hazard_hit_by_laser(v, j))
}

/// The destruction events of one tick: exactly one if a hazard overlaps
/// the alive ship, carrying its transform and class at destruction.
pub open spec fn collision_events(v: WorldView) -> Seq<ShipDestroyed> {
    match v.ship {
        Option::Some(s) => if ship_hit(v) {
            seq![ShipDestroyed { destroyed_at: s.transform, ship_type: s.ship_type }]
        } else {
            Seq::empty()
        },
        Option::None => Seq::empty(),
    }
}

/// How many hazards lasers destroyed this tick.
pub open spec fn collision_credits(v: WorldView) -> int {
    count_true(laser_credit(v))
}

/// What `collision_resolver` leaves behind: doomed lasers and hazards
/// removed in order, the ship removed when a hazard overlaps it, all
/// decided against the start-of-tick entities.
pub open spec fn collision_spec(v: WorldView) -> WorldView {
    WorldView {
        ship: if ship_hit(v) {
            Option::None
        } else {
            v.ship
        },
        lasers: keep_mask(v.lasers, laser_keep(v)),
        hazards: keep_mask(v.hazards, hazard_keep(v)),
        ..v
    }
}

/// Resolves one tick of collisions: every hazard overlapped by a laser or
/// by the ship is removed, every laser overlapping a hazard is removed,
/// a ship overlap removes the ship and emits exactly one destruction
/// event, and each destroyed-by-laser hazard credits the score once.
/// All pair tests run against the start-of-tick entities, so the outcome
/// does not depend on pair order and nothing is removed twice.
pub fn collision_resolver(world: &mut World) -> (out: TickOutcome)
    requires
        old(world)@.dims_wf(),
    ensures
        final(world)@ == collision_spec(old(world)@),
        final(world)@.dims_wf(),
        out.events@ == collision_events(old(world)@),
        out.score_credits == collision_credits(old(world)@),
{
    let ghost v = world@;
    let nh: usize = world.hazards.len();
    let nl: usize = world.lasers.len();

    // which hazards a laser overlaps
    let mut lh: Vec<bool> = Vec::new();
    let mut j: usize = 0;
    while j < nh
        invariant
            *world == *old(world),
            v == world@,
            world@.dims_wf(),
            nh == world.hazards.len(),
            nl == world.lasers.len(),
            0 <= j <= nh,
            lh@.len() == j,
            forall|q: int| 0 <= q < j ==> lh@[q] == hazard_hit_by_laser(v, q),
        decreases nh - j,
    {
        let h: Hazard = world.hazards[j];
        let mut hit: bool = false;
        let mut i: usize = 0;
        while i < nl
            invariant
                *world == *old(world),
                v == world@,
                world@.dims_wf(),
                nh == world.hazards.len(),
                nl == world.lasers.len(),
                0 <= j < nh,
                h == world.hazards[j as int],
                0 <= i <= nl,
                hit == exists|k: int| 0 <= k < i && laser_hits_hazard(v, k, j as int),
            decreases nl - i,
        {
            let l: LaserEntity = world.lasers[i];
            proof {
                assert(laser_wf(v.lasers[i as int], v.bounds));
                assert(hazard_wf(v.hazards[j as int], v.bounds));
            }
            if boxes_overlap(l.transform.translation, l.collider, h.position, h.collider) {
                hit = true;
                proof {
                    assert(laser_hits_hazard(v, i as int, j as int));
                }
            }
            i = i + 1;
        }
        lh.push(hit);
        j = j + 1;
    }

    // which hazards the ship overlaps
    let mut sh: Vec<bool> = Vec::new();
    let mut any_sh: bool = false;
    j = 0;
    while j < nh
        invariant
            *world == *old(world),
            v == world@,
            world@.dims_wf(),
            nh == world.hazards.len(),
            0 <= j <= nh,
            sh@.len() == j,
            forall|q: int| 0 <= q < j ==> sh@[q] == ship_overlaps_hazard(v, q),
            any_sh == exists|q: int| 0 <= q < j && ship_overlaps_hazard(v, q),
        decreases nh - j,
    {
        let h: Hazard = world.hazards[j];
        proof {
            assert(hazard_wf(v.hazards[j as int], v.bounds));
        }
        let o: bool = match &world.ship {
            Option::Some(s) => boxes_overlap(
                s.transform.translation,
                s.collider,
                h.position,
                h.collider,
            ),
            Option::None => false,
        };
        if o {
            any_sh = true;
            proof {
                assert(ship_overlaps_hazard(v, j as int));
            }
        }
        sh.push(o);
        j = j + 1;
    }

    // sweep the hazards
    let ghost hmask = hazard_keep(v);
    let mut new_hazards: Vec<Hazard> = Vec::new();
    j = 0;
    while j < nh
        invariant
            *world == *old(world),
            v == world@,
            world@.dims_wf(),
            nh == world.hazards.len(),
            0 <= j <= nh,
            lh@.len() == nh,
            sh@.len() == nh,
            forall|q: int| 0 <= q < nh ==> lh@[q] == hazard_hit_by_laser(v, q),
            forall|q: int| 0 <= q < nh ==> sh@[q] == ship_overlaps_hazard(v, q),
            hmask == hazard_keep(v),
            new_hazards@ == keep_mask(v.hazards.take(j as int), hmask.take(j as int)),
            forall|q: int| 0 <= q < new_hazards@.len() ==> hazard_wf(
                #[trigger] new_hazards@[q],
                v.bounds,
            ),
        decreases nh - j,
    {
        proof {
            lemma_keep_mask_push(
                v.hazards.take(j as int),
                hmask.take(j as int),
                v.hazards[j as int],
                hmask[j as int],
            );
            assert(v.hazards.take(j + 1) =~= v.hazards.take(j as int).push(v.hazards[j as int]));
            assert(hmask.take(j + 1) =~= hmask.take(j as int).push(hmask[j as int]));
        }
        if !(lh[j] || sh[j]) {
            new_hazards.push(world.hazards[j]);
        }
        j = j + 1;
    }
    proof {
        assert(v.hazards.take(nh as int) =~= v.hazards);
        assert(hmask.take(nh as int) =~= hmask);
    }

    // sweep the lasers
    let ghost lmask = laser_keep(v);
    let mut new_lasers: Vec<LaserEntity> = Vec::new();
    let mut i: usize = 0;
    while i < nl
        invariant
            *world == *old(world),
            v == world@,
            world@.dims_wf(),
            nh == world.hazards.len(),
            nl == world.lasers.len(),
            0 <= i <= nl,
            lmask == laser_keep(v),
            new_lasers@ == keep_mask(v.lasers.take(i as int), lmask.take(i as int)),
            forall|q: int| 0 <= q < new_lasers@.len() ==> laser_wf(
                #[trigger] new_lasers@[q],
                v.bounds,
            ),
        decreases nl - i,
    {
        let l: LaserEntity = world.lasers[i];
        let mut doomed: bool = false;
        j = 0;
        while j < nh
            invariant
                *world == *old(world),
                v == world@,
                world@.dims_wf(),
                nh == world.hazards.len(),
                nl == world.lasers.len(),
                0 <= i < nl,
                l == world.lasers[i as int],
                0 <= j <= nh,
                doomed == exists|k: int| 0 <= k < j && laser_hits_hazard(v, i as int, k),
            decreases nh - j,
        {
            let h: Hazard = world.hazards[j];
            proof {
                assert(laser_wf(v.lasers[i as int], v.bounds));
                assert(hazard_wf(v.hazards[j as int], v.bounds));
            }
            if boxes_overlap(l.transform.translation, l.collider, h.position, h.collider) {
                doomed = true;
                proof {
                    assert(laser_hits_hazard(v, i as int, j as int));
                }
            }
            j = j + 1;
        }
        proof {
            assert(doomed == laser_doomed(v, i as int));
            lemma_keep_mask_push(
                v.lasers.take(i as int),
                lmask.take(i as int),
                v.lasers[i as int],
                lmask[i as int],
            );
            assert(v.lasers.take(i + 1) =~= v.lasers.take(i as int).push(v.lasers[i as int]));
            assert(lmask.take(i + 1) =~= lmask.take(i as int).push(lmask[i as int]));
            assert(laser_wf(v.lasers[i as int], v.bounds));
        }
        if !doomed {
            new_lasers.push(l);
        }
        i = i + 1;
    }
    proof {
        assert(v.lasers.take(nl as int) =~= v.lasers);
        assert(lmask.take(nl as int) =~= lmask);
    }

    // score credits: one per hazard a laser destroyed
    let ghost cmask = laser_credit(v);
    let mut credits: usize = 0;
    j = 0;
    while j < nh
        invariant
            0 <= j <= nh,
            lh@.len() == nh,
            forall|q: int| 0 <= q < nh ==> lh@[q] == hazard_hit_by_laser(v, q),
            cmask == laser_credit(v),
            nh == cmask.len(),
            credits == count_true(cmask.take(j as int)),
            credits <= j,
        decreases nh - j,
    {
        proof {
            lemma_count_true_push(cmask.take(j as int), cmask[j as int]);
            assert(cmask.take(j + 1) =~= cmask.take(j as int).push(cmask[j as int]));
        }
        if lh[j] {
            credits = credits + 1;
        }
        j = j + 1;
    }
    proof {
        assert(cmask.take(nh as int) =~= cmask);
    }

    // the one destruction event, and the sweep of the ship itself
    let mut events: Vec<ShipDestroyed> = Vec::new();
    if any_sh {
        match &world.ship {
            Option::Some(s) => {
                events.push(
                    ShipDestroyed { destroyed_at: s.transform, ship_type: s.ship_type },
                );
            },
            Option::None => {
            },
        }
        world.ship = Option::None;
    }
    world.hazards = new_hazards;
    world.lasers = new_lasers;
    proof {
        assert(world@ =~= collision_spec(v));
    }
    TickOutcome { events, score_credits: credits }
}

} // verus!
