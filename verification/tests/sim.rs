//! Whole-tick scenarios: thrust and drift, the weapon cooldown, collision
//! outcomes, the life counter and respawn, and the pause freeze.

use space_shooter::geom::Vec2Fx;
use space_shooter::ship::{LifecycleState, PlayerShipType};
use space_shooter::world::{Hazard, TickInput, World};

fn quiet_input(now_micros: u64) -> TickInput {
    TickInput {
        left: false,
        right: false,
        thrust: false,
        fire: false,
        facing: Vec2Fx { x: 0, y: 10_000 },
        dt_micros: 16_667,
        now_micros,
        assets_ready: true,
        paused: false,
    }
}

fn test_world() -> World {
    World::new(PlayerShipType::B, 3, Vec2Fx { x: 100_000_000, y: 100_000_000 })
}

#[test]
fn thrust_one_tick_from_origin() {
    // ship at the origin heading straight up, thrust held one tick of
    // 1/60 s: drift becomes (0, 0.01) and the position advances by
    // 0.01 * 500 / 60 world units, truncated in fixed-point units
    let mut w = test_world();
    let mut input = quiet_input(16_667);
    input.thrust = true;
    w.tick(&input);
    assert_eq!(w.drift.0, Vec2Fx { x: 0, y: 100 });
    let ship = w.ship.expect("ship should stay alive");
    assert_eq!(ship.transform.translation, Vec2Fx { x: 0, y: 833 });
    assert_eq!(ship.transform.rotation, 0);
}

#[test]
fn drift_is_clamped_per_axis() {
    // held thrust adds 0.01 each tick; after far more ticks than the
    // clamp needs, each axis still sits at its limit
    let mut w = test_world();
    let mut now: u64 = 0;
    for _ in 0..250 {
        now += 16_667;
        let mut input = quiet_input(now);
        input.thrust = true;
        w.tick(&input);
        assert!(w.drift.0.x.abs() <= 10_000);
        assert!(w.drift.0.y.abs() <= 10_000);
    }
    assert_eq!(w.drift.0, Vec2Fx { x: 0, y: 10_000 });
}

#[test]
fn releasing_thrust_keeps_drift() {
    // no decay on release: drift is unchanged by a thrust-free tick
    let mut w = test_world();
    let mut input = quiet_input(16_667);
    input.thrust = true;
    w.tick(&input);
    let drift = w.drift.0;
    let input2 = quiet_input(33_334);
    w.tick(&input2);
    assert_eq!(w.drift.0, drift);
}

#[test]
fn turning_left_raises_heading() {
    let mut w = test_world();
    let mut input = quiet_input(16_667);
    input.left = true;
    w.tick(&input);
    // one full turn per second for 16667 us is 16667 microturns
    assert_eq!(w.ship.unwrap().transform.rotation, 16_667);
}

#[test]
fn turning_right_wraps_below_zero() {
    let mut w = test_world();
    let mut input = quiet_input(16_667);
    input.right = true;
    w.tick(&input);
    assert_eq!(w.ship.unwrap().transform.rotation, 1_000_000 - 16_667);
}

#[test]
fn both_turn_keys_cancel() {
    let mut w = test_world();
    let mut input = quiet_input(16_667);
    input.left = true;
    input.right = true;
    w.tick(&input);
    assert_eq!(w.ship.unwrap().transform.rotation, 0);
}

#[test]
fn fire_spawns_exactly_one_laser() {
    let mut w = test_world();
    let mut input = quiet_input(16_667);
    input.fire = true;
    w.tick(&input);
    assert_eq!(w.lasers.len(), 1);
    assert_eq!(w.last_shot, Some(16_667));
    let laser = w.lasers[0];
    assert_eq!(laser.laser.speed, 1_000);
    assert_eq!(laser.laser.movement_factor, w.drift.0);
}

#[test]
fn second_fire_within_cooldown_is_blocked() {
    // a second shot 150 ms after the first stays inside the 200 ms
    // cooldown window: still exactly one laser
    let mut w = test_world();
    let mut first = quiet_input(16_667);
    first.fire = true;
    w.tick(&first);
    let mut second = quiet_input(166_667);
    second.fire = true;
    w.tick(&second);
    assert_eq!(w.lasers.len(), 1);
    assert_eq!(w.last_shot, Some(16_667));
}

#[test]
fn second_fire_after_cooldown_spawns_again() {
    // 250 ms after the first shot the window has elapsed: two lasers
    let mut w = test_world();
    let mut first = quiet_input(16_667);
    first.fire = true;
    w.tick(&first);
    let mut second = quiet_input(266_668);
    second.fire = true;
    w.tick(&second);
    assert_eq!(w.lasers.len(), 2);
    assert_eq!(w.last_shot, Some(266_668));
}

#[test]
fn fire_on_exact_cooldown_boundary_is_blocked() {
    // the cooldown is strict: exactly 200 ms later is still too early
    let mut w = test_world();
    let mut first = quiet_input(10_000);
    first.fire = true;
    w.tick(&first);
    let mut second = quiet_input(210_000);
    second.fire = true;
    w.tick(&second);
    assert_eq!(w.lasers.len(), 1);
}

#[test]
fn fire_without_assets_is_skipped() {
    let mut w = test_world();
    let mut input = quiet_input(16_667);
    input.fire = true;
    input.assets_ready = false;
    w.tick(&input);
    assert_eq!(w.lasers.len(), 0);
    assert_eq!(w.last_shot, None);
}

#[test]
fn engine_fire_follows_thrust_key() {
    let mut w = test_world();
    let mut input = quiet_input(16_667);
    input.thrust = true;
    w.tick(&input);
    assert!(w.ship.unwrap().engine_fire.visible);
    let input2 = quiet_input(33_334);
    w.tick(&input2);
    assert!(!w.ship.unwrap().engine_fire.visible);
}

#[test]
fn ship_hazard_overlap_destroys_both_and_emits_one_event() {
    let mut w = test_world();
    w.add_hazard(Hazard {
        position: Vec2Fx { x: 0, y: 0 },
        collider: Vec2Fx { x: 100_000, y: 100_000 },
    });
    let out = w.tick(&quiet_input(16_667));
    assert_eq!(out.events.len(), 1);
    assert_eq!(out.events[0].ship_type, PlayerShipType::B);
    assert_eq!(w.hazards.len(), 0);
    assert_eq!(out.score_credits, 0);
    assert_eq!(w.lives, 2);
}

#[test]
fn lives_three_destroyed_respawns_fresh_ship() {
    // lives 3 -> 2 on destruction; 2 is neither 0 nor the starting
    // maximum, so a fresh alive ship appears at the start transform
    let mut w = test_world();
    w.add_hazard(Hazard {
        position: Vec2Fx { x: 0, y: 0 },
        collider: Vec2Fx { x: 100_000, y: 100_000 },
    });
    w.tick(&quiet_input(16_667));
    assert_eq!(w.lives, 2);
    assert_eq!(w.state, LifecycleState::Alive);
    let ship = w.ship.expect("respawn should have produced a ship");
    assert_eq!(ship.transform.translation, Vec2Fx { x: 0, y: 0 });
    assert_eq!(ship.transform.rotation, 0);
    assert!(!ship.engine_fire.visible);
    assert_eq!(w.drift.0, Vec2Fx { x: 0, y: 0 });
    assert_eq!(w.last_shot, None);
}

#[test]
fn destruction_resets_drift_and_last_shot() {
    let mut w = test_world();
    let mut input = quiet_input(16_667);
    input.thrust = true;
    input.fire = true;
    w.tick(&input);
    assert_ne!(w.drift.0, Vec2Fx { x: 0, y: 0 });
    assert!(w.last_shot.is_some());
    w.add_hazard(Hazard {
        position: w.ship.unwrap().transform.translation,
        collider: Vec2Fx { x: 100_000, y: 100_000 },
    });
    let mut second = quiet_input(300_000);
    second.fire = false;
    w.tick(&second);
    assert_eq!(w.drift.0, Vec2Fx { x: 0, y: 0 });
    assert_eq!(w.last_shot, None);
}

#[test]
fn last_life_lost_ends_the_round() {
    // lives 1, ship destroyed: lives reach 0, game over, no respawn
    let mut w = World::new(PlayerShipType::A, 1, Vec2Fx { x: 100_000_000, y: 100_000_000 });
    w.add_hazard(Hazard {
        position: Vec2Fx { x: 0, y: 0 },
        collider: Vec2Fx { x: 100_000, y: 100_000 },
    });
    let out = w.tick(&quiet_input(16_667));
    assert_eq!(out.events.len(), 1);
    assert_eq!(w.lives, 0);
    assert_eq!(w.state, LifecycleState::GameOver);
    assert!(w.ship.is_none());
}

#[test]
fn three_destructions_run_out_the_lives() {
    let mut w = test_world();
    let mut now: u64 = 0;
    for expected in [2u32, 1, 0] {
        now += 16_667;
        w.add_hazard(Hazard {
            position: Vec2Fx { x: 0, y: 0 },
            collider: Vec2Fx { x: 100_000, y: 100_000 },
        });
        w.tick(&quiet_input(now));
        assert_eq!(w.lives, expected);
    }
    assert_eq!(w.state, LifecycleState::GameOver);
    assert!(w.ship.is_none());
    // one more tick changes nothing: no ship, no respawn
    w.tick(&quiet_input(now + 16_667));
    assert_eq!(w.lives, 0);
    assert!(w.ship.is_none());
}

#[test]
fn missing_assets_delay_respawn_to_next_tick() {
    let mut w = test_world();
    w.add_hazard(Hazard {
        position: Vec2Fx { x: 0, y: 0 },
        collider: Vec2Fx { x: 100_000, y: 100_000 },
    });
    let mut input = quiet_input(16_667);
    input.assets_ready = false;
    w.tick(&input);
    assert_eq!(w.state, LifecycleState::DestroyedPendingRespawn);
    assert!(w.ship.is_none());
    w.tick(&quiet_input(33_334));
    assert_eq!(w.state, LifecycleState::Alive);
    assert!(w.ship.is_some());
}

#[test]
fn laser_hazard_overlap_removes_both_and_credits_score() {
    let mut w = test_world();
    // hazard straight above the ship, far enough not to touch it
    w.add_hazard(Hazard {
        position: Vec2Fx { x: 0, y: 1_000_000 },
        collider: Vec2Fx { x: 200_000, y: 200_000 },
    });
    let mut input = quiet_input(16_667);
    input.fire = true;
    // the fresh laser reaches from the ship's transform; its collision
    // box is 54 units tall, and the hazard hangs 100 units up with a
    // 40-unit half-height, so a few ticks of flight close the gap
    let mut now: u64 = 16_667;
    w.tick(&input);
    assert_eq!(w.lasers.len(), 1);
    let mut credited: usize = 0;
    for _ in 0..60 {
        now += 16_667;
        let out = w.tick(&quiet_input(now));
        credited += out.score_credits;
        if w.hazards.is_empty() {
            break;
        }
    }
    assert_eq!(credited, 1);
    assert_eq!(w.hazards.len(), 0);
    assert_eq!(w.lasers.len(), 0);
    assert_eq!(w.lives, 3, "a laser kill must not cost a life");
}

#[test]
fn hazard_overlapping_ship_and_laser_is_removed_once() {
    // one hazard on top of both the ship and a laser: the ship dies with
    // one event, the laser dies, the hazard leaves exactly once, and the
    // laser kill still credits the score
    let mut w = test_world();
    let mut input = quiet_input(16_667);
    input.fire = true;
    w.tick(&input);
    w.add_hazard(Hazard {
        position: Vec2Fx { x: 0, y: 0 },
        collider: Vec2Fx { x: 400_000, y: 400_000 },
    });
    let out = w.tick(&quiet_input(33_334));
    assert_eq!(out.events.len(), 1);
    assert_eq!(out.score_credits, 1);
    assert_eq!(w.hazards.len(), 0);
    assert_eq!(w.lasers.len(), 0);
    assert_eq!(w.lives, 2);
}

#[test]
fn lasers_leaving_the_playfield_are_culled() {
    let mut w = World::new(PlayerShipType::B, 3, Vec2Fx { x: 5_000_000, y: 5_000_000 });
    let mut input = quiet_input(16_667);
    input.fire = true;
    w.tick(&input);
    assert_eq!(w.lasers.len(), 1);
    let mut now: u64 = 16_667;
    // at 1000 units per second the laser needs half a second to cross
    // the 500-unit half-field; give it two seconds of ticks
    for _ in 0..10 {
        now += 200_000;
        let mut cruise = quiet_input(now);
        cruise.dt_micros = 200_000;
        w.tick(&cruise);
    }
    assert_eq!(w.lasers.len(), 0);
}

#[test]
fn paused_ticks_freeze_the_world_exactly() {
    let mut w = test_world();
    let mut input = quiet_input(16_667);
    input.thrust = true;
    input.fire = true;
    input.left = true;
    w.tick(&input);
    w.add_hazard(Hazard {
        position: Vec2Fx { x: 2_000_000, y: 0 },
        collider: Vec2Fx { x: 100_000, y: 100_000 },
    });
    let ship_before = w.ship;
    let drift_before = w.drift.0;
    let lasers_before = w.lasers.clone();
    let hazards_before = w.hazards.clone();
    let last_shot_before = w.last_shot;
    let lives_before = w.lives;
    let mut now: u64 = 16_667;
    for _ in 0..25 {
        now += 16_667;
        let mut paused = quiet_input(now);
        paused.paused = true;
        paused.thrust = true;
        paused.fire = true;
        paused.left = true;
        let out = w.tick(&paused);
        assert_eq!(out.events.len(), 0);
        assert_eq!(out.score_credits, 0);
    }
    assert_eq!(w.ship, ship_before);
    assert_eq!(w.drift.0, drift_before);
    assert_eq!(w.lasers, lasers_before);
    assert_eq!(w.hazards, hazards_before);
    assert_eq!(w.last_shot, last_shot_before);
    assert_eq!(w.lives, lives_before);
}

#[test]
fn respawn_still_runs_while_paused() {
    let mut w = test_world();
    w.add_hazard(Hazard {
        position: Vec2Fx { x: 0, y: 0 },
        collider: Vec2Fx { x: 100_000, y: 100_000 },
    });
    let mut destroying = quiet_input(16_667);
    destroying.assets_ready = false;
    w.tick(&destroying);
    assert_eq!(w.state, LifecycleState::DestroyedPendingRespawn);
    let mut paused = quiet_input(33_334);
    paused.paused = true;
    w.tick(&paused);
    assert_eq!(w.state, LifecycleState::Alive);
    assert!(w.ship.is_some());
}

#[test]
fn heading_after_turn_matches_the_applied_rotation() {
    let mut w = test_world();
    let predicted = space_shooter::controls::heading_after_turn(&w, true, false, 16_667);
    let mut input = quiet_input(16_667);
    input.left = true;
    w.tick(&input);
    assert_eq!(w.ship.unwrap().transform.rotation, predicted);
    assert_eq!(predicted, 16_667);
}

#[test]
fn round_reset_restores_the_start_state() {
    let mut w = World::new(PlayerShipType::C, 1, Vec2Fx { x: 100_000_000, y: 100_000_000 });
    w.add_hazard(Hazard {
        position: Vec2Fx { x: 0, y: 0 },
        collider: Vec2Fx { x: 100_000, y: 100_000 },
    });
    let mut input = quiet_input(16_667);
    input.thrust = true;
    w.tick(&input);
    assert_eq!(w.state, LifecycleState::GameOver);
    w.reset_round();
    assert_eq!(w.state, LifecycleState::Alive);
    assert_eq!(w.lives, 1);
    assert_eq!(w.drift.0, Vec2Fx { x: 0, y: 0 });
    assert_eq!(w.last_shot, None);
    assert!(w.hazards.is_empty());
    assert!(w.lasers.is_empty());
    let ship = w.ship.expect("reset must spawn the initial ship");
    assert_eq!(ship.ship_type, PlayerShipType::C);
    assert_eq!(ship.transform.translation, Vec2Fx { x: 0, y: 0 });
}

#[test]
fn movement_is_deterministic_for_equal_state_and_input() {
    let mut a = test_world();
    let mut b = test_world();
    let mut input = quiet_input(16_667);
    input.thrust = true;
    input.left = true;
    input.fire = true;
    a.tick(&input);
    b.tick(&input);
    assert_eq!(a.ship, b.ship);
    assert_eq!(a.drift.0, b.drift.0);
    assert_eq!(a.lasers, b.lasers);
}
