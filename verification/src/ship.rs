//! The player ship: its class, speed constants, sprite-sheet indices,
//! collider extents, the alive entity record, and the destruction event.

use vstd::prelude::*;
use crate::geom::{Vec2Fx, TransformFx, SCALE, SPEED_LIMIT, ROT_SPEED_LIMIT, HALF_LIMIT, TURN};
use crate::controls::MovementFactor;
use crate::world::{World, WorldView};

verus! {

/// Inherent movement speed of a spawned laser, in world units per second.
pub const LASER_SPEED: i64 = 1_000;

/// Half-extents of a laser's collision box, in fixed units
/// (bounding box of a triangle 9 wide and 54 tall).
pub const LASER_HALF_X: i64 = 45_000;

pub const LASER_HALF_Y: i64 = 270_000;

/// Half-extents of a ship's collision box, in fixed units
/// (bounding box of a capsule of height 40 and radius 10).
pub const SHIP_HALF_X: i64 = 100_000;

pub const SHIP_HALF_Y: i64 = 300_000;

/// One of the selectable ship classes.
#[derive(Clone, Copy, PartialEq, Eq, Structural, Debug)]
pub enum PlayerShipType {
    A,
    B,
    C,
}

/// Base speed constants of a ship class.
#[derive(Clone, Copy, PartialEq, Eq, Structural, Debug)]
pub struct BaseShipSpeed {
    /// Linear speed in world units per second.
    pub movement_speed: i64,
    /// Rotation speed in millturns per second.
    pub rotation_speed: i64,
}

impl PlayerShipType {
    /// Sprite-sheet cell of the ship body for this class.
    pub fn base_atlas_index(&self) -> (r: usize)
        ensures
            r == match *self {
                PlayerShipType::A => 200usize,
                PlayerShipType::B => 207usize,
                PlayerShipType::C => 214usize,
            },
    {
        match self {
            PlayerShipType::A => 200,
            PlayerShipType::B => 207,
            PlayerShipType::C => 214,
        }
    }

    /// Sprite-sheet cell of the life marker for this class.
    pub fn life_atlas_index(&self) -> (r: usize)
        ensures
            r == match *self {
                PlayerShipType::A => 188usize,
                PlayerShipType::B => 192usize,
                PlayerShipType::C => 196usize,
            },
    {
        match self {
            PlayerShipType::A => 188,
            PlayerShipType::B => 192,
            PlayerShipType::C => 196,
        }
    }

    /// Every selectable class, in selection order.
    pub fn all_ships() -> (r: Vec<PlayerShipType>)
        ensures
            r@ =~= seq![PlayerShipType::A, PlayerShipType::B, PlayerShipType::C],
    {
        let mut v: Vec<PlayerShipType> = Vec::new();
        v.push(PlayerShipType::A);
        v.push(PlayerShipType::B);
        v.push(PlayerShipType::C);
        v
    }

    /// Half-extents of this class's collision box, in fixed units.
    pub fn collider(&self) -> (r: Vec2Fx)
        ensures
            r.x == SHIP_HALF_X,
            r.y == SHIP_HALF_Y,
    {
        Vec2Fx { x: SHIP_HALF_X, y: SHIP_HALF_Y }
    }

    /// Base speeds of this class: every class moves at 500 units per
    /// second and turns one full revolution per second.
    pub fn base_ship_speed(&self) -> (r: BaseShipSpeed)
        ensures
            r == spec_base_ship_speed(*self),
            0 < r.movement_speed <= SPEED_LIMIT,
            0 < r.rotation_speed <= ROT_SPEED_LIMIT,
    {
        match self {
            PlayerShipType::A => BaseShipSpeed { movement_speed: 500, rotation_speed: 1_000 },
            PlayerShipType::B => BaseShipSpeed { movement_speed: 500, rotation_speed: 1_000 },
            PlayerShipType::C => BaseShipSpeed { movement_speed: 500, rotation_speed: 1_000 },
        }
    }
}

/// What `PlayerShipType::base_ship_speed` returns, for use in contracts.
pub open spec fn spec_base_ship_speed(t: PlayerShipType) -> BaseShipSpeed {
    match t {
        PlayerShipType::A => BaseShipSpeed { movement_speed: 500, rotation_speed: 1_000 },
        PlayerShipType::B => BaseShipSpeed { movement_speed: 500, rotation_speed: 1_000 },
        PlayerShipType::C => BaseShipSpeed { movement_speed: 500, rotation_speed: 1_000 },
    }
}

/// The engine-flame child of the ship, shown only while thrust is held.
#[derive(Clone, Copy, PartialEq, Eq, Structural, Debug)]
pub struct PlayerEngineFire {
    pub visible: bool,
}

/// The one alive player entity.
#[derive(Clone, Copy, PartialEq, Eq, Structural, Debug)]
pub struct ShipEntity {
    pub transform: TransformFx,
    pub ship_type: PlayerShipType,
    /// Half-extents of the collision box, in fixed units.
    pub collider: Vec2Fx,
    pub engine_fire: PlayerEngineFire,
}

/// Emitted once when the ship is destroyed, carrying where it died and
/// which class it was; consumed by the lifecycle handler and by the
/// particle/audio collaborators.
#[derive(Clone, Copy, PartialEq, Eq, Structural, Debug)]
pub struct ShipDestroyed {
    pub destroyed_at: TransformFx,
    pub ship_type: PlayerShipType,
}

/// Everything a freshly spawned ship entity carries.
#[derive(Clone, Copy, PartialEq, Eq, Structural, Debug)]
pub struct ShipBundle {
    pub transform: TransformFx,
    pub ship_type: PlayerShipType,
    /// Sprite-sheet cell of the ship body.
    pub atlas_index: usize,
    pub collider: Vec2Fx,
    pub engine_fire: PlayerEngineFire,
}

impl ShipBundle {
    /// What `ShipBundle::for_type` returns, for use in contracts.
    pub open spec fn spec_for_type(t: PlayerShipType) -> ShipBundle {
        ShipBundle {
            transform: TransformFx { translation: Vec2Fx { x: 0, y: 0 }, rotation: 0 },
            ship_type: t,
            atlas_index: match t {
                PlayerShipType::A => 200usize,
                PlayerShipType::B => 207usize,
                PlayerShipType::C => 214usize,
            },
            collider: Vec2Fx { x: SHIP_HALF_X, y: SHIP_HALF_Y },
            engine_fire: PlayerEngineFire { visible: false },
        }
    }

    /// The alive entity a spawn record turns into, for use in contracts.
    pub open spec fn spec_entity(self) -> ShipEntity {
        ShipEntity {
            transform: self.transform,
            ship_type: self.ship_type,
            collider: self.collider,
            engine_fire: self.engine_fire,
        }
    }

    /// A spawn record for a class: default start transform at the origin
    /// heading straight up, the class collider, engine flame hidden.
    pub fn for_type(t: PlayerShipType) -> (r: ShipBundle)
        ensures
            r == ShipBundle::spec_for_type(t),
    {
        ShipBundle {
            transform: TransformFx { translation: Vec2Fx { x: 0, y: 0 }, rotation: 0 },
            atlas_index: t.base_atlas_index(),
            collider: t.collider(),
            ship_type: t,
            engine_fire: PlayerEngineFire { visible: false },
        }
    }

    /// The alive entity a spawn record turns into.
    pub fn into_entity(self) -> (r: ShipEntity)
        ensures
            r == self.spec_entity(),
    {
        ShipEntity {
            transform: self.transform,
            ship_type: self.ship_type,
            collider: self.collider,
            engine_fire: self.engine_fire,
        }
    }
}

/// The ship lifecycle: alive, waiting on a consumed destruction event,
/// in the middle of respawning, or out of lives.
#[derive(Clone, Copy, PartialEq, Eq, Structural, Debug)]
pub enum LifecycleState {
    Alive,
    DestroyedPendingRespawn,
    Respawning,
    GameOver,
}

/// A ship entity is well formed inside a playfield of half-extents `b`.
pub open spec fn ship_wf(s: ShipEntity, b: Vec2Fx) -> bool {
    &&& s.transform.translation.within(b)
    &&& 0 <= s.transform.rotation < TURN
    &&& 0 < s.collider.x <= HALF_LIMIT
    &&& 0 < s.collider.y <= HALF_LIMIT
}

/// What `player_ship_destroyed_event_handler` does: each destruction
/// event decrements lives by exactly one, resets the drift vector to
/// zero, clears the last-fire timestamp, and leaves the lifecycle
/// awaiting a respawn; with no events nothing changes.
pub open spec fn lifecycle_spec(v: WorldView, events: Seq<ShipDestroyed>) -> WorldView
    recommends
        events.len() <= v.lives,
{
    if events.len() == 0 {
        v
    } else {
        WorldView {
            lives: (v.lives - events.len()) as u32,
            drift: MovementFactor(Vec2Fx { x: 0, y: 0 }),
            last_shot: Option::None,
            state: LifecycleState::DestroyedPendingRespawn,
            ..v
        }
    }
}

/// Consumes this tick's destruction events: per event, lives go down by
/// exactly one, the drift vector is reset to zero, and the last-fire
/// timestamp is cleared; the lifecycle is then awaiting a respawn.
pub fn player_ship_destroyed_event_handler(world: &mut World, events: &Vec<ShipDestroyed>)
    requires
        old(world)@.dims_wf(),
        events@.len() <= old(world)@.lives,
    ensures
        final(world)@ == lifecycle_spec(old(world)@, events@),
        final(world)@.dims_wf(),
{
    let n: usize = events.len();
    let mut k: usize = 0;
    while k < n
        invariant
            n == events@.len(),
            0 <= k <= n,
            world@ == lifecycle_spec(old(world)@, events@.take(k as int)),
            old(world)@.dims_wf(),
            n <= old(world)@.lives,
        decreases n - k,
    {
        proof {
            assert(events@.take(k + 1).len() == k + 1);
        }
        world.lives = world.lives - 1;
        world.drift = MovementFactor(Vec2Fx { x: 0, y: 0 });
        world.last_shot = Option::None;
        world.state = LifecycleState::DestroyedPendingRespawn;
        k = k + 1;
        proof {
            assert(world@ =~= lifecycle_spec(old(world)@, events@.take(k as int)));
        }
    }
    proof {
        assert(events@.take(n as int) =~= events@);
    }
}

/// What `spawn_ship_after_ship_destroyed` does: a consumed destruction
/// with no lives left ends the round; one with lives strictly between
/// zero and the starting maximum (the round-start spawn is handled
/// separately) and a loaded sprite sheet respawns a fresh ship of the
/// selected class at the default start transform, its engine flame
/// hidden; anything else waits.
pub open spec fn respawn_spec(v: WorldView, assets_ready: bool) -> WorldView {
    if v.state is DestroyedPendingRespawn {
        if v.lives == 0 {
            WorldView { state: LifecycleState::GameOver, ..v }
        } else if v.lives != v.max_lives && assets_ready {
            WorldView {
                ship: Option::Some(ShipBundle::spec_for_type(v.ship_type).spec_entity()),
                state: LifecycleState::Alive,
                ..v
            }
        } else {
            v
        }
    } else {
        v
    }
}

/// Runs the respawn side of the lifecycle: after a destruction was
/// consumed, either the round ends (no lives left) or — when lives are
/// strictly between zero and the starting maximum and the sprite sheet
/// is loaded — a fresh ship of the selected class spawns at the default
/// start transform with its engine flame hidden.  A missing sprite sheet
/// just leaves the respawn waiting for the next tick.  This transition
/// also runs while the game is paused.
pub fn spawn_ship_after_ship_destroyed(world: &mut World, assets_ready: bool)
    requires
        old(world)@.dims_wf(),
    ensures
        final(world)@ == respawn_spec(old(world)@, assets_ready),
        final(world)@.dims_wf(),
{
    match world.state {
        LifecycleState::DestroyedPendingRespawn => {
            if world.lives == 0 {
                world.state = LifecycleState::GameOver;
            } else if world.lives != world.max_lives && assets_ready {
                world.state = LifecycleState::Respawning;
                let bundle = ShipBundle::for_type(world.ship_type);
                world.ship = Option::Some(bundle.into_entity());
                world.state = LifecycleState::Alive;
            }
        },
        _ => {
        },
    }
}

} // verus!
