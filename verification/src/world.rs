//! The simulation state owned by the tick scheduler: the zero-or-one
//! alive ship, the drift vector, live lasers and hazards, the life
//! counter and the lifecycle state, all threaded explicitly through each
//! component call.

use vstd::prelude::*;
use crate::geom::{Vec2Fx, SCALE, MAX_DT_MICROS, BOUND_LIMIT, HALF_LIMIT};
use crate::ship::{
    PlayerShipType, ShipEntity, ShipBundle, ShipDestroyed, LifecycleState, ship_wf,
    lifecycle_spec, respawn_spec, player_ship_destroyed_event_handler,
    spawn_ship_after_ship_destroyed,
};
use crate::controls::{
    MovementFactor, LaserEntity, laser_wf, movement_spec, engine_fire_spec, lasers_spec,
    weapon_spec, player_movement_system, engine_fire, laser_movement, weapon_system,
};
use crate::collision::{
    collision_spec, collision_events, collision_credits, collision_resolver,
};

verus! {

/// A hostile entity (meteor or hostile craft): anything that destroys the
/// ship and is destroyed by a laser.  Hazards do not move in this core;
/// their motion belongs to their own collaborator.
#[derive(Clone, Copy, PartialEq, Eq, Structural, Debug)]
pub struct Hazard {
    pub position: Vec2Fx,
    /// Half-extents of the collision box, in fixed units.
    pub collider: Vec2Fx,
}

/// A hazard is well formed inside a playfield of half-extents `b`.
pub open spec fn hazard_wf(h: Hazard, b: Vec2Fx) -> bool {
    &&& h.position.within(b)
    &&& 0 < h.collider.x <= HALF_LIMIT
    &&& 0 < h.collider.y <= HALF_LIMIT
}

/// Everything the outside world hands the core for one tick: key states,
/// the clock, whether the sprite sheet is loaded, the pause flag, and the
/// unit vector of the ship's heading after this tick's turn (trigonometry
/// is the input collaborator's work, not this core's).
#[derive(Clone, Copy, PartialEq, Eq, Structural, Debug)]
pub struct TickInput {
    /// Left turn key held.
    pub left: bool,
    /// Right turn key held.
    pub right: bool,
    /// Forward thrust key held.
    pub thrust: bool,
    /// Fire key held.
    pub fire: bool,
    /// Unit vector of the ship's heading after this tick's turn, in fixed
    /// units (each coordinate in `[-SCALE, SCALE]`).
    pub facing: Vec2Fx,
    /// Tick duration, in microseconds.
    pub dt_micros: u64,
    /// Time since round start, in microseconds.
    pub now_micros: u64,
    /// The sprite sheet is loaded, so spawns may go ahead.
    pub assets_ready: bool,
    /// The global pause flag: a paused tick applies nothing but the
    /// respawn transition.
    pub paused: bool,
}

impl TickInput {
    /// The input is within the integrator's machine limits.
    pub open spec fn wf(self) -> bool {
        &&& -SCALE <= self.facing.x <= SCALE
        &&& -SCALE <= self.facing.y <= SCALE
        &&& 0 < self.dt_micros <= MAX_DT_MICROS
    }
}

/// What one tick hands back to the outside collaborators: the destruction
/// events for the particle/audio side, and how many hazards lasers
/// destroyed, for the score side.
pub struct TickOutcome {
    pub events: Vec<ShipDestroyed>,
    pub score_credits: usize,
}

/// The mathematical model of a `World`.
#[verifier::ext_equal]
pub struct WorldView {
    pub ship: Option<ShipEntity>,
    pub ship_type: PlayerShipType,
    pub drift: MovementFactor,
    pub lasers: Seq<LaserEntity>,
    pub hazards: Seq<Hazard>,
    pub lives: u32,
    pub max_lives: u32,
    pub last_shot: Option<u64>,
    pub state: LifecycleState,
    pub bounds: Vec2Fx,
}

impl WorldView {
    /// Geometric and numeric well-formedness: the playfield is a real
    /// box, every entity sits inside it with a real collider, the drift
    /// vector is axis-clamped, and lives never exceed the starting
    /// maximum.
    pub open spec fn dims_wf(self) -> bool {
        &&& 0 < self.bounds.x <= BOUND_LIMIT
        &&& 0 < self.bounds.y <= BOUND_LIMIT
        &&& match self.ship {
            Option::Some(s) => ship_wf(s, self.bounds),
            Option::None => true,
        }
        &&& -SCALE <= self.drift.0.x <= SCALE
        &&& -SCALE <= self.drift.0.y <= SCALE
        &&& forall|i: int| 0 <= i < self.lasers.len() ==> laser_wf(#[trigger] self.lasers[i], self.bounds)
        &&& forall|i: int| 0 <= i < self.hazards.len() ==> hazard_wf(#[trigger] self.hazards[i], self.bounds)
        &&& self.lives <= self.max_lives
        &&& 1 <= self.max_lives
    }

    /// Lifecycle consistency at a tick boundary: alive means exactly one
    /// ship entity and at least one life; a consumed destruction awaits a
    /// respawn with lives strictly between zero and the maximum; game
    /// over means no lives; respawning never outlives the tick that
    /// started it.
    pub open spec fn machine_wf(self) -> bool {
        &&& match self.state {
            LifecycleState::Alive => self.ship is Some && self.lives >= 1,
            LifecycleState::DestroyedPendingRespawn => self.ship is None && 0 < self.lives
                < self.max_lives,
            LifecycleState::Respawning => false,
            LifecycleState::GameOver => self.ship is None && self.lives == 0,
        }
        &&& (self.ship is Some ==> self.state is Alive)
    }

    /// Full well-formedness.
    pub open spec fn wf(self) -> bool {
        self.dims_wf() && self.machine_wf()
    }
}

/// The simulation state, owned exclusively by this core and mutated only
/// by the component that owns each part.
pub struct World {
    /// Zero or one alive player entity; more than one cannot be
    /// represented, which is the registry-boundary invariant.
    pub ship: Option<ShipEntity>,
    /// The currently selected ship class, used at each respawn.
    pub ship_type: PlayerShipType,
    /// The shared drift vector.
    pub drift: MovementFactor,
    pub lasers: Vec<LaserEntity>,
    pub hazards: Vec<Hazard>,
    /// Lives left; decremented by destruction events, never incremented
    /// within this core.
    pub lives: u32,
    /// Lives at round start.
    pub max_lives: u32,
    /// When the weapon last fired, in microseconds since round start.
    pub last_shot: Option<u64>,
    pub state: LifecycleState,
    /// Playfield half-extents, in fixed units.
    pub bounds: Vec2Fx,
}

impl View for World {
    type V = WorldView;

    open spec fn view(&self) -> WorldView {
        WorldView {
            ship: self.ship,
            ship_type: self.ship_type,
            drift: self.drift,
            lasers: self.lasers@,
            hazards: self.hazards@,
            lives: self.lives,
            max_lives: self.max_lives,
            last_shot: self.last_shot,
            state: self.state,
            bounds: self.bounds,
        }
    }
}

impl World {
    /// A round-start world: a fresh ship of the chosen class at the
    /// default start transform, full lives, zero drift, no prior shot, no
    /// lasers and no hazards.
    pub fn new(ship_type: PlayerShipType, max_lives: u32, bounds: Vec2Fx) -> (r: World)
        requires
            1 <= max_lives,
            0 < bounds.x <= BOUND_LIMIT,
            0 < bounds.y <= BOUND_LIMIT,
        ensures
            r@.wf(),
            r@.ship == Option::Some(ShipBundle::spec_for_type(ship_type).spec_entity()),
            r@.ship_type == ship_type,
            r@.drift.0 == (Vec2Fx { x: 0, y: 0 }),
            r@.lasers.len() == 0,
            r@.hazards.len() == 0,
            r@.lives == max_lives,
            r@.max_lives == max_lives,
            r@.last_shot is None,
            r@.state == LifecycleState::Alive,
            r@.bounds == bounds,
    {
        World {
            ship: Option::Some(ShipBundle::for_type(ship_type).into_entity()),
            ship_type,
            drift: MovementFactor(Vec2Fx { x: 0, y: 0 }),
            lasers: Vec::new(),
            hazards: Vec::new(),
            lives: max_lives,
            max_lives,
            last_shot: Option::None,
            state: LifecycleState::Alive,
            bounds,
        }
    }

    /// The state after the input-driven phases of a tick: movement and
    /// engine flame, laser motion, then the weapon — the state the
    /// collision resolver sees.
    pub open spec fn tick_mid(v: WorldView, input: TickInput) -> WorldView {
        weapon_spec(
            lasers_spec(engine_fire_spec(movement_spec(v, input), input.thrust), input),
            input,
        )
    }

    /// What one full tick does: paused, only the respawn transition runs;
    /// otherwise movement, weapon, collision resolution, event
    /// consumption and respawn run in that order.
    pub open spec fn tick_spec(v: WorldView, input: TickInput) -> WorldView {
        if input.paused {
            respawn_spec(v, input.assets_ready)
        } else {
            let mid = World::tick_mid(v, input);
            let resolved = collision_spec(mid);
            let handled = lifecycle_spec(resolved, collision_events(mid));
            respawn_spec(handled, input.assets_ready)
        }
    }

    /// The destruction events one tick emits.
    pub open spec fn tick_events_spec(v: WorldView, input: TickInput) -> Seq<ShipDestroyed> {
        if input.paused {
            Seq::empty()
        } else {
            collision_events(World::tick_mid(v, input))
        }
    }

    /// The score credits one tick emits.
    pub open spec fn tick_credits_spec(v: WorldView, input: TickInput) -> int {
        if input.paused {
            0
        } else {
            collision_credits(World::tick_mid(v, input))
        }
    }

    /// Advances the simulation one tick in the fixed component order:
    /// movement integrator, weapon system, collision resolver, lifecycle
    /// state machine.  While paused, nothing applies but the respawn
    /// transition, so every position and rotation stays exactly as it
    /// was.  The returned outcome carries the destruction events for the
    /// particle/audio collaborators and the score credits.
    pub fn tick(&mut self, input: &TickInput) -> (out: TickOutcome)
        requires
            old(self)@.wf(),
            input.wf(),
            match old(self)@.last_shot {
                Option::Some(t) => input.now_micros >= t,
                Option::None => true,
            },
        ensures
            final(self)@ == World::tick_spec(old(self)@, *input),
            final(self)@.wf(),
            out.events@ == World::tick_events_spec(old(self)@, *input),
            out.score_credits == World::tick_credits_spec(old(self)@, *input),
    {
        if input.paused {
            spawn_ship_after_ship_destroyed(self, input.assets_ready);
            TickOutcome { events: Vec::new(), score_credits: 0 }
        } else {
            let ghost v0 = self@;
            player_movement_system(self, input);
            engine_fire(self, input.thrust);
            laser_movement(self, input);
            proof {
                let v3 = self@;
                assert(v3.ship is Some <==> v0.ship is Some);
                assert(v3.state == v0.state && v3.lives == v0.lives && v3.max_lives
                    == v0.max_lives && v3.last_shot == v0.last_shot);
            }
            weapon_system(self, input);
            let ghost mid = self@;
            proof {
                assert(mid.ship is Some <==> v0.ship is Some);
                assert(mid.state == v0.state && mid.lives == v0.lives && mid.max_lives
                    == v0.max_lives);
                assert(collision_events(mid).len() <= 1);
                if collision_events(mid).len() > 0 {
                    assert(mid.ship is Some);
                    assert(v0.state is Alive);
                    assert(mid.lives >= 1);
                }
            }
            let out = collision_resolver(self);
            player_ship_destroyed_event_handler(self, &out.events);
            spawn_ship_after_ship_destroyed(self, input.assets_ready);
            proof {
                lemma_tick_machine_wf(v0, *input);
            }
            out
        }
    }

    /// Resets the round at the round-management collaborator's request:
    /// lives back to the starting maximum, drift zeroed, the last-shot
    /// timestamp cleared, the field emptied, and the initial ship of the
    /// selected class spawned at the default start transform.
    pub fn reset_round(&mut self)
        requires
            old(self)@.dims_wf(),
        ensures
            final(self)@ == (WorldView {
                ship: Option::Some(ShipBundle::spec_for_type(old(self)@.ship_type).spec_entity()),
                drift: MovementFactor(Vec2Fx { x: 0, y: 0 }),
                lasers: Seq::empty(),
                hazards: Seq::empty(),
                lives: old(self)@.max_lives,
                last_shot: Option::None,
                state: LifecycleState::Alive,
                ..old(self)@
            }),
            final(self)@.wf(),
    {
        self.ship = Option::Some(ShipBundle::for_type(self.ship_type).into_entity());
        self.drift = MovementFactor(Vec2Fx { x: 0, y: 0 });
        self.lasers = Vec::new();
        self.hazards = Vec::new();
        self.lives = self.max_lives;
        self.last_shot = Option::None;
        self.state = LifecycleState::Alive;
        proof {
            assert(self@.lasers =~= Seq::<LaserEntity>::empty());
            assert(self@.hazards =~= Seq::<Hazard>::empty());
        }
    }

    /// Admits a hazard at the registry boundary: it must sit inside the
    /// playfield with a real collider.
    pub fn add_hazard(&mut self, h: Hazard)
        requires
            old(self)@.wf(),
            h.position.within(old(self)@.bounds),
            0 < h.collider.x <= HALF_LIMIT,
            0 < h.collider.y <= HALF_LIMIT,
        ensures
            final(self)@ == (WorldView { hazards: old(self)@.hazards.push(h), ..old(self)@ }),
            final(self)@.wf(),
    {
        self.hazards.push(h);
    }
}

/// One tick keeps the lifecycle machine consistent: the input-driven
/// phases change neither lives nor the state nor whether a ship exists;
/// the resolver removes the ship exactly when it emits the one event;
/// the handler then decrements and parks the machine, and the respawn
/// transition leaves it alive, waiting, or at game over, each with the
/// lives that state demands.
pub proof fn lemma_tick_machine_wf(v: WorldView, input: TickInput)
    requires
        v.wf(),
        input.wf(),
    ensures
        World::tick_spec(v, input).machine_wf(),
{
    if !input.paused {
        let mid = World::tick_mid(v, input);
        assert(mid.ship is Some <==> v.ship is Some);
        assert(mid.state == v.state && mid.lives == v.lives && mid.max_lives == v.max_lives);
        let resolved = collision_spec(mid);
        let events = collision_events(mid);
        let handled = lifecycle_spec(resolved, events);
        if events.len() == 0 {
            assert(handled == resolved);
        } else {
            assert(mid.ship is Some && v.state is Alive && v.lives >= 1);
            assert(resolved.ship is None);
            assert(handled.lives == v.lives - 1 && handled.state is DestroyedPendingRespawn);
        }
        assert(World::tick_spec(v, input) == respawn_spec(handled, input.assets_ready));
    }
}

} // verus!
