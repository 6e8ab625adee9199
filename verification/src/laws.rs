//! The library's stated laws: properties that hold of every input, each
//! proved here from the public contracts alone.

use vstd::prelude::*;
use crate::geom::SCALE;
use crate::controls::{movement_spec, weapon_spec, can_shoot, COOLDOWN_MICROS};
use crate::collision::{
    collision_spec, collision_events, ship_overlaps_hazard, ship_hit, hazard_keep, hazard_doomed,
};
use crate::masks::{lemma_keep_mask_len, lemma_count_true_bound};
use crate::ship::{ShipDestroyed, lifecycle_spec, respawn_spec};
use crate::world::{WorldView, TickInput, World};

verus! {

/// The drift vector never leaves the unit box: after any movement
/// integrator step, each coordinate still lies in `[-SCALE, SCALE]`,
/// whichever keys were held, for any tick duration and any facing the
/// input collaborator supplies.
pub proof fn lemma_drift_never_exceeds_unit(v: WorldView, input: TickInput)
    requires
        input.wf(),
        -SCALE <= v.drift.0.x <= SCALE,
        -SCALE <= v.drift.0.y <= SCALE,
    ensures
        -SCALE <= movement_spec(v, input).drift.0.x <= SCALE,
        -SCALE <= movement_spec(v, input).drift.0.y <= SCALE,
{
}

/// The weapon's cooldown: a permitted shot fires exactly one laser, a
/// second fire within the cooldown window fires none, and a second fire
/// strictly after the window fires exactly one more.
pub proof fn lemma_fire_cooldown(v: WorldView, first: TickInput, second: TickInput)
    requires
        v.ship is Some,
        first.fire && first.assets_ready,
        second.fire && second.assets_ready,
        can_shoot(v.last_shot, first.now_micros),
        second.now_micros >= first.now_micros,
    ensures
        weapon_spec(v, first).lasers.len() == v.lasers.len() + 1,
        second.now_micros - first.now_micros <= COOLDOWN_MICROS ==> weapon_spec(
            weapon_spec(v, first),
            second,
        ).lasers.len() == v.lasers.len() + 1,
        second.now_micros - first.now_micros > COOLDOWN_MICROS ==> weapon_spec(
            weapon_spec(v, first),
            second,
        ).lasers.len() == v.lasers.len() + 2,
{
}

/// A ship-hazard overlap yields exactly one destruction event and
/// removes both entities: the ship entity is gone and the hazard count
/// strictly drops, never only one of the two.
pub proof fn lemma_ship_hazard_overlap(v: WorldView, j: int)
    requires
        v.dims_wf(),
        0 <= j < v.hazards.len(),
        ship_overlaps_hazard(v, j),
    ensures
        collision_events(v).len() == 1,
        collision_spec(v).ship is None,
        hazard_doomed(v, j),
        collision_spec(v).hazards.len() < v.hazards.len(),
{
    assert(ship_hit(v));
    lemma_keep_mask_len(v.hazards, hazard_keep(v));
    assert(!hazard_keep(v)[j]);
    lemma_count_true_bound(hazard_keep(v));
}

/// Each destruction event costs exactly one life, and the respawn fires
/// exactly when the decremented count is strictly between zero and the
/// starting maximum.
pub proof fn lemma_lives_and_respawn(v: WorldView, events: Seq<ShipDestroyed>)
    requires
        v.ship is None,
        events.len() == 1,
        events.len() <= v.lives,
        v.lives <= v.max_lives,
    ensures
        lifecycle_spec(v, events).lives == v.lives - 1,
        ({
            let r = respawn_spec(lifecycle_spec(v, events), true);
            (r.ship is Some && r.state is Alive) <==> 0 < v.lives - 1 < v.max_lives
        }),
{
}

/// Pausing freezes the round: a paused tick leaves every laser, every
/// hazard and the drift vector exactly as they were, and with an alive
/// ship it leaves the whole world untouched — bit for bit, for any
/// number of ticks, since equal integers are equal bits.
pub proof fn lemma_paused_tick_freezes(v: WorldView, input: TickInput)
    requires
        v.wf(),
        input.paused,
    ensures
        World::tick_spec(v, input).lasers == v.lasers,
        World::tick_spec(v, input).hazards == v.hazards,
        World::tick_spec(v, input).drift == v.drift,
        v.ship is Some ==> World::tick_spec(v, input) == v,
{
}

} // verus!
