//! Player controls: turning, thrust and the drift vector, laser motion,
//! the engine flame, and the cooldown-gated weapon.
//!
//! Headings are microturns; the unit vector of the ship's heading cannot
//! be computed here (that is trigonometry, supplied by the input
//! collaborator as `TickInput::facing`), so every contract speaks of the
//! facing the caller handed in.

use vstd::prelude::*;
use crate::geom::{
    Vec2Fx, TransformFx, SCALE, TURN, MICROS_PER_SEC, HALF_LIMIT,
    SPEED_LIMIT, div_trunc, div_trunc_i64, clamp_axis_spec, clamp_axis, wrap_coord_spec,
    wrap_coord, lemma_abs_mul_bound, lemma_div_trunc_bound,
};
use crate::masks::{keep_mask, lemma_keep_mask_push};
use crate::ship::{
    PlayerShipType, ShipEntity, PlayerEngineFire, spec_base_ship_speed, LASER_SPEED,
    LASER_HALF_X, LASER_HALF_Y,
};
use crate::world::{World, WorldView, TickInput};

verus! {

/// A fire action is permitted only this long after the previous one, in
/// microseconds.
pub const COOLDOWN_MICROS: u64 = 200_000;

/// Divisor applied to the facing vector for one tick of thrust: each held
/// tick adds one hundredth of the facing unit vector to the drift.
pub const THRUST_DIV: i64 = 100;

/// The player's drift vector: the accumulated, axis-clamped velocity bias
/// that thrust history leaves behind.  There is no decay on release; that
/// is the intended no-friction design.
#[derive(Clone, Copy, PartialEq, Eq, Structural, Debug)]
pub struct MovementFactor(pub Vec2Fx);

/// The projectile component: the firing ship's drift at spawn time and
/// the laser's inherent speed.
#[derive(Clone, Copy, PartialEq, Eq, Structural, Debug)]
pub struct Laser {
    /// The firing ship's drift vector at the time of firing.
    pub movement_factor: Vec2Fx,
    /// Inherent speed, in world units per second.
    pub speed: i64,
}

/// Marks an entity as belonging to the player.
#[derive(Clone, Copy, PartialEq, Eq, Structural, Debug)]
pub struct PlayerOwned;

/// A live laser entity.  Its rotation is fixed at spawn time, so the unit
/// vector of its heading is captured once, at spawn.
#[derive(Clone, Copy, PartialEq, Eq, Structural, Debug)]
pub struct LaserEntity {
    pub transform: TransformFx,
    /// Unit vector of the heading at spawn, in fixed units.
    pub facing: Vec2Fx,
    pub laser: Laser,
    /// Half-extents of the collision box, in fixed units.
    pub collider: Vec2Fx,
    pub owner: PlayerOwned,
}

/// A laser entity is well formed inside a playfield of half-extents `b`.
pub open spec fn laser_wf(l: LaserEntity, b: Vec2Fx) -> bool {
    &&& l.transform.translation.within(b)
    &&& 0 <= l.transform.rotation < TURN
    &&& -SCALE <= l.facing.x <= SCALE
    &&& -SCALE <= l.facing.y <= SCALE
    &&& -SCALE <= l.laser.movement_factor.x <= SCALE
    &&& -SCALE <= l.laser.movement_factor.y <= SCALE
    &&& 0 < l.laser.speed <= SPEED_LIMIT
    &&& 0 < l.collider.x <= HALF_LIMIT
    &&& 0 < l.collider.y <= HALF_LIMIT
}

/// Turn direction from the two turn keys: left raises the heading, right
/// lowers it, both or neither cancel out.
pub open spec fn turn_dir(left: bool, right: bool) -> int {
    (if left {
        1int
    } else {
        0int
    }) - (if right {
        1int
    } else {
        0int
    })
}

/// How far one tick turns a ship of class `t`, in microturns.
pub open spec fn turn_delta(t: PlayerShipType, dt_micros: u64) -> int {
    spec_base_ship_speed(t).rotation_speed * dt_micros / 1000
}

/// A heading brought back into `[0, TURN)` after one turn step.
pub open spec fn wrap_angle_spec(h: int) -> int
    recommends
        -TURN <= h < 2 * TURN,
{
    if h < 0 {
        h + TURN
    } else if h >= TURN {
        h - TURN
    } else {
        h
    }
}

/// Wraps a heading into `[0, TURN)` after one turn step.
pub fn wrap_angle(h: i64) -> (r: i64)
    requires
        -TURN <= h < 2 * TURN,
    ensures
        r == wrap_angle_spec(h as int),
        0 <= r < TURN,
{
    if h < 0 {
        h + TURN
    } else if h >= TURN {
        h - TURN
    } else {
        h
    }
}

/// The drift vector after one held-thrust tick: one hundredth of the
/// facing unit vector is added, then each axis is clamped to
/// `[-SCALE, SCALE]`.
pub open spec fn drift_after_thrust(d: Vec2Fx, facing: Vec2Fx) -> Vec2Fx
    recommends
        -SCALE <= d.x <= SCALE,
        -SCALE <= d.y <= SCALE,
        -SCALE <= facing.x <= SCALE,
        -SCALE <= facing.y <= SCALE,
{
    Vec2Fx {
        x: clamp_axis_spec(d.x + div_trunc(facing.x as int, THRUST_DIV as int), SCALE as int) as i64,
        y: clamp_axis_spec(d.y + div_trunc(facing.y as int, THRUST_DIV as int), SCALE as int) as i64,
    }
}

/// How far a drift coordinate carries a body of linear speed `speed` in
/// `dt_micros` microseconds, in fixed units, truncating toward zero.
pub open spec fn drift_step(d: int, speed: int, dt_micros: u64) -> int {
    div_trunc(d * (speed * dt_micros), MICROS_PER_SEC as int)
}

/// What `player_movement_system` does: with no alive ship, nothing; else
/// the heading turns by the held keys, held thrust adds to the drift
/// vector and clamps it, and the position advances by drift times class
/// speed times the tick duration, wrapped at the playfield edges.
pub open spec fn movement_spec(v: WorldView, input: TickInput) -> WorldView {
    match v.ship {
        Option::None => v,
        Option::Some(s) => {
            let sp = spec_base_ship_speed(s.ship_type);
            let rot = wrap_angle_spec(
                s.transform.rotation + turn_dir(input.left, input.right) * turn_delta(
                    s.ship_type,
                    input.dt_micros,
                ),
            );
            let d = if input.thrust {
                drift_after_thrust(v.drift.0, input.facing)
            } else {
                v.drift.0
            };
            let px = wrap_coord_spec(
                s.transform.translation.x + drift_step(d.x as int, sp.movement_speed as int, input.dt_micros),
                v.bounds.x as int,
            );
            let py = wrap_coord_spec(
                s.transform.translation.y + drift_step(d.y as int, sp.movement_speed as int, input.dt_micros),
                v.bounds.y as int,
            );
            WorldView {
                ship: Option::Some(
                    ShipEntity {
                        transform: TransformFx {
                            translation: Vec2Fx { x: px as i64, y: py as i64 },
                            rotation: rot as i64,
                        },
                        ..s
                    },
                ),
                drift: MovementFactor(d),
                ..v
            }
        },
    }
}

/// Advances the alive ship one tick: turn keys rotate it, held thrust
/// feeds the drift vector (clamped per axis), and the drift carries the
/// ship, wrapped at the playfield edges.  With no alive ship this is a
/// no-op, never an error.
pub fn player_movement_system(world: &mut World, input: &TickInput)
    requires
        old(world)@.dims_wf(),
        input.wf(),
    ensures
        final(world)@ == movement_spec(old(world)@, *input),
        final(world)@.dims_wf(),
{
    let s: ShipEntity = match &world.ship {
        Option::Some(s) => *s,
        Option::None => {
            return ;
        },
    };
    let sp = s.ship_type.base_ship_speed();
    let dt: i64 = input.dt_micros as i64;
    proof {
        assert(0 <= sp.rotation_speed * dt <= 800_000_000) by (nonlinear_arith)
            requires
                0 < sp.rotation_speed <= 4_000,
                0 < dt <= 200_000,
        ;
    }
    let p: i64 = sp.rotation_speed * dt;
    let dtheta: i64 = p / 1000;
    let dir: i64 = (if input.left {
        1i64
    } else {
        0i64
    }) - (if input.right {
        1i64
    } else {
        0i64
    });
    proof {
        vstd::arithmetic::div_mod::lemma_div_is_ordered(p as int, 800_000_000, 1000);
        vstd::arithmetic::div_mod::lemma_div_pos_is_pos(p as int, 1000);
        lemma_abs_mul_bound(dir as int, 1, dtheta as int, 800_000);
    }
    let rot: i64 = wrap_angle(s.transform.rotation + dir * dtheta);
    let d: Vec2Fx = if input.thrust {
        Vec2Fx {
            x: clamp_axis(world.drift.0.x + div_trunc_i64(input.facing.x, THRUST_DIV), SCALE),
            y: clamp_axis(world.drift.0.y + div_trunc_i64(input.facing.y, THRUST_DIV), SCALE),
        }
    } else {
        world.drift.0
    };
    proof {
        assert(0 <= sp.movement_speed * dt <= 20_000_000_000) by (nonlinear_arith)
            requires
                0 < sp.movement_speed <= 100_000,
                0 < dt <= 200_000,
        ;
        lemma_abs_mul_bound(d.x as int, 10_000, (sp.movement_speed * dt) as int, 20_000_000_000);
        lemma_abs_mul_bound(d.y as int, 10_000, (sp.movement_speed * dt) as int, 20_000_000_000);
        lemma_div_trunc_bound(
            d.x * (sp.movement_speed * dt),
            1_000_000,
            200_000_000_000_000,
        );
        lemma_div_trunc_bound(
            d.y * (sp.movement_speed * dt),
            1_000_000,
            200_000_000_000_000,
        );
    }
    let px: i64 = wrap_coord(
        s.transform.translation.x + div_trunc_i64(d.x * (sp.movement_speed * dt), 1_000_000),
        world.bounds.x,
    );
    let py: i64 = wrap_coord(
        s.transform.translation.y + div_trunc_i64(d.y * (sp.movement_speed * dt), 1_000_000),
        world.bounds.y,
    );
    world.ship = Option::Some(
        ShipEntity {
            transform: TransformFx { translation: Vec2Fx { x: px, y: py }, rotation: rot },
            ..s
        },
    );
    world.drift = MovementFactor(d);
}

/// The heading the alive ship will carry after this tick's turn, for the
/// input collaborator to aim its trigonometry at before it hands the
/// facing unit vector back in; zero with no alive ship.
pub fn heading_after_turn(world: &World, left: bool, right: bool, dt_micros: u64) -> (r: i64)
    requires
        world@.dims_wf(),
        0 < dt_micros <= crate::geom::MAX_DT_MICROS,
    ensures
        r == match world@.ship {
            Option::Some(s) => wrap_angle_spec(
                s.transform.rotation + turn_dir(left, right) * turn_delta(s.ship_type, dt_micros),
            ),
            Option::None => 0,
        },
        0 <= r < TURN,
{
    let s: ShipEntity = match &world.ship {
        Option::Some(s) => *s,
        Option::None => {
            return 0;
        },
    };
    let sp = s.ship_type.base_ship_speed();
    let dt: i64 = dt_micros as i64;
    proof {
        assert(0 <= sp.rotation_speed * dt <= 800_000_000) by (nonlinear_arith)
            requires
                0 < sp.rotation_speed <= 4_000,
                0 < dt <= 200_000,
        ;
    }
    let p: i64 = sp.rotation_speed * dt;
    let dtheta: i64 = p / 1000;
    let dir: i64 = (if left {
        1i64
    } else {
        0i64
    }) - (if right {
        1i64
    } else {
        0i64
    });
    proof {
        vstd::arithmetic::div_mod::lemma_div_is_ordered(p as int, 800_000_000, 1000);
        vstd::arithmetic::div_mod::lemma_div_pos_is_pos(p as int, 1000);
        lemma_abs_mul_bound(dir as int, 1, dtheta as int, 800_000);
    }
    wrap_angle(s.transform.rotation + dir * dtheta)
}

/// The engine flame shown exactly while thrust is held.
pub open spec fn engine_fire_spec(v: WorldView, thrust: bool) -> WorldView {
    match v.ship {
        Option::None => v,
        Option::Some(s) => WorldView {
            ship: Option::Some(ShipEntity { engine_fire: PlayerEngineFire { visible: thrust }, ..s }),
            ..v
        },
    }
}

/// Shows the ship's engine flame while thrust is held and hides it
/// otherwise.
pub fn engine_fire(world: &mut World, thrust: bool)
    ensures
        final(world)@ == engine_fire_spec(old(world)@, thrust),
{
    match &world.ship {
        Option::Some(s) => {
            let updated = ShipEntity { engine_fire: PlayerEngineFire { visible: thrust }, ..*s };
            world.ship = Option::Some(updated);
        },
        Option::None => {
        },
    }
}

/// One tick of laser motion: spawn drift plus facing times inherent
/// speed, scaled by the tick duration; the rotation stays as spawned.
pub open spec fn laser_step_spec(l: LaserEntity, dt_micros: u64) -> LaserEntity {
    let dx = div_trunc(
        (l.laser.movement_factor.x + l.facing.x * l.laser.speed) * dt_micros,
        MICROS_PER_SEC as int,
    );
    let dy = div_trunc(
        (l.laser.movement_factor.y + l.facing.y * l.laser.speed) * dt_micros,
        MICROS_PER_SEC as int,
    );
    LaserEntity {
        transform: TransformFx {
            translation: Vec2Fx {
                x: (l.transform.translation.x + dx) as i64,
                y: (l.transform.translation.y + dy) as i64,
            },
            rotation: l.transform.rotation,
        },
        ..l
    }
}

/// Which moved lasers stay: those still inside the playfield.
pub open spec fn lasers_kept_mask(moved: Seq<LaserEntity>, b: Vec2Fx) -> Seq<bool> {
    Seq::new(moved.len(), |i: int| moved[i].transform.translation.within(b))
}

/// What `laser_movement` does: every laser advances one step, and those
/// that leave the playfield are dropped, in order.
pub open spec fn lasers_spec(v: WorldView, input: TickInput) -> WorldView {
    let moved = v.lasers.map_values(|l: LaserEntity| laser_step_spec(l, input.dt_micros));
    WorldView { lasers: keep_mask(moved, lasers_kept_mask(moved, v.bounds)), ..v }
}

/// Advances every laser one tick and drops the ones that left the
/// playfield.
pub fn laser_movement(world: &mut World, input: &TickInput)
    requires
        old(world)@.dims_wf(),
        input.wf(),
    ensures
        final(world)@ == lasers_spec(old(world)@, *input),
        final(world)@.dims_wf(),
{
    let ghost moved_all = old(world)@.lasers.map_values(
        |l: LaserEntity| laser_step_spec(l, input.dt_micros),
    );
    let ghost mask_all = lasers_kept_mask(moved_all, old(world)@.bounds);
    let dt: i64 = input.dt_micros as i64;
    let mut out: Vec<LaserEntity> = Vec::new();
    let n: usize = world.lasers.len();
    let mut i: usize = 0;
    while i < n
        invariant
            *world == *old(world),
            world@.dims_wf(),
            input.wf(),
            dt == input.dt_micros as i64,
            n == world.lasers.len(),
            0 <= i <= n,
            moved_all == world@.lasers.map_values(
                |l: LaserEntity| laser_step_spec(l, input.dt_micros),
            ),
            mask_all == lasers_kept_mask(moved_all, world@.bounds),
            out@ == keep_mask(moved_all.take(i as int), mask_all.take(i as int)),
            forall|k: int| 0 <= k < out@.len() ==> laser_wf(#[trigger] out@[k], world@.bounds),
        decreases n - i,
    {
        let l: LaserEntity = world.lasers[i];
        proof {
            assert(laser_wf(world@.lasers[i as int], world@.bounds));
            lemma_abs_mul_bound(l.facing.x as int, 10_000, l.laser.speed as int, 100_000);
            lemma_abs_mul_bound(l.facing.y as int, 10_000, l.laser.speed as int, 100_000);
            lemma_abs_mul_bound(
                (l.laser.movement_factor.x + l.facing.x * l.laser.speed) as int,
                1_000_010_000,
                dt as int,
                200_000,
            );
            lemma_abs_mul_bound(
                (l.laser.movement_factor.y + l.facing.y * l.laser.speed) as int,
                1_000_010_000,
                dt as int,
                200_000,
            );
            lemma_div_trunc_bound(
                (l.laser.movement_factor.x + l.facing.x * l.laser.speed) * dt,
                1_000_000,
                200_002_000_000_000,
            );
            lemma_div_trunc_bound(
                (l.laser.movement_factor.y + l.facing.y * l.laser.speed) * dt,
                1_000_000,
                200_002_000_000_000,
            );
        }
        let dx: i64 = div_trunc_i64((l.laser.movement_factor.x + l.facing.x * l.laser.speed) * dt, 1_000_000);
        let dy: i64 = div_trunc_i64((l.laser.movement_factor.y + l.facing.y * l.laser.speed) * dt, 1_000_000);
        let moved = LaserEntity {
            transform: TransformFx {
                translation: Vec2Fx {
                    x: l.transform.translation.x + dx,
                    y: l.transform.translation.y + dy,
                },
                rotation: l.transform.rotation,
            },
            ..l
        };
        proof {
            assert(moved == moved_all[i as int]);
            lemma_keep_mask_push(
                moved_all.take(i as int),
                mask_all.take(i as int),
                moved_all[i as int],
                mask_all[i as int],
            );
            assert(moved_all.take(i + 1) =~= moved_all.take(i as int).push(moved_all[i as int]));
            assert(mask_all.take(i + 1) =~= mask_all.take(i as int).push(mask_all[i as int]));
        }
        let inside = -world.bounds.x <= moved.transform.translation.x
            && moved.transform.translation.x <= world.bounds.x
            && -world.bounds.y <= moved.transform.translation.y
            && moved.transform.translation.y <= world.bounds.y;
        if inside {
            out.push(moved);
        }
        i = i + 1;
    }
    proof {
        assert(moved_all.take(n as int) =~= moved_all);
        assert(mask_all.take(n as int) =~= mask_all);
    }
    world.lasers = out;
}

/// A fire action is permitted when no prior shot exists or the cooldown
/// has strictly elapsed since it.
pub open spec fn can_shoot(last_shot: Option<u64>, now_micros: u64) -> bool {
    match last_shot {
        Option::None => true,
        Option::Some(t) => now_micros - t > COOLDOWN_MICROS,
    }
}

/// The projectile a firing ship spawns: the ship's transform and facing,
/// a copy of the current drift vector, and the inherent laser speed.
pub open spec fn new_laser_spec(s: ShipEntity, drift: MovementFactor, facing: Vec2Fx) -> LaserEntity {
    LaserEntity {
        transform: s.transform,
        facing: facing,
        laser: Laser { movement_factor: drift.0, speed: LASER_SPEED },
        collider: Vec2Fx { x: LASER_HALF_X, y: LASER_HALF_Y },
        owner: PlayerOwned,
    }
}

/// What `weapon_system` does: with an alive ship, a loaded sprite sheet,
/// the fire key held and the cooldown satisfied, exactly one laser is
/// spawned and the last-shot timestamp moves to now; otherwise nothing
/// changes.
pub open spec fn weapon_spec(v: WorldView, input: TickInput) -> WorldView {
    match v.ship {
        Option::None => v,
        Option::Some(s) => {
            if input.fire && input.assets_ready && can_shoot(v.last_shot, input.now_micros) {
                WorldView {
                    last_shot: Option::Some(input.now_micros),
                    lasers: v.lasers.push(new_laser_spec(s, v.drift, input.facing)),
                    ..v
                }
            } else {
                v
            }
        },
    }
}

/// Fires the weapon: while the fire key is held and the cooldown since
/// the last shot has strictly elapsed, spawns exactly one laser carrying
/// the ship's transform, its facing and the current drift vector, and
/// records the shot time.  Skipped with no alive ship (a consistency
/// no-op) or while the sprite sheet is not loaded yet (retried next
/// tick).
pub fn weapon_system(world: &mut World, input: &TickInput)
    requires
        old(world)@.dims_wf(),
        input.wf(),
        match old(world)@.last_shot {
            Option::Some(t) => input.now_micros >= t,
            Option::None => true,
        },
    ensures
        final(world)@ == weapon_spec(old(world)@, *input),
        final(world)@.dims_wf(),
{
    let s: ShipEntity = match &world.ship {
        Option::Some(s) => *s,
        Option::None => {
            return ;
        },
    };
    if !(input.fire && input.assets_ready) {
        return ;
    }
    let permitted: bool = match world.last_shot {
        Option::None => true,
        Option::Some(t) => input.now_micros - t > COOLDOWN_MICROS,
    };
    if permitted {
        world.last_shot = Option::Some(input.now_micros);
        let laser = LaserEntity {
            transform: s.transform,
            facing: input.facing,
            laser: Laser { movement_factor: world.drift.0, speed: LASER_SPEED },
            collider: Vec2Fx { x: LASER_HALF_X, y: LASER_HALF_Y },
            owner: PlayerOwned,
        };
        world.lasers.push(laser);
    }
}

} // verus!
