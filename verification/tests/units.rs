//! Unit tests for the geometry helpers and the ship-class constants.

use space_shooter::geom::{boxes_overlap, clamp_axis, div_trunc_i64, wrap_coord, Vec2Fx};
use space_shooter::ship::{PlayerShipType, ShipBundle};

#[test]
fn div_trunc_rounds_toward_zero() {
    assert_eq!(div_trunc_i64(7, 2), 3);
    assert_eq!(div_trunc_i64(-7, 2), -3);
    assert_eq!(div_trunc_i64(0, 5), 0);
    assert_eq!(div_trunc_i64(-1, 1_000_000), 0);
    assert_eq!(div_trunc_i64(999_999, 1_000_000), 0);
}

#[test]
fn clamp_axis_pins_to_the_limits() {
    assert_eq!(clamp_axis(10_500, 10_000), 10_000);
    assert_eq!(clamp_axis(-10_500, 10_000), -10_000);
    assert_eq!(clamp_axis(9_999, 10_000), 9_999);
    assert_eq!(clamp_axis(-10_000, 10_000), -10_000);
}

#[test]
fn wrap_coord_stays_inside_the_field() {
    assert_eq!(wrap_coord(0, 100), 0);
    assert_eq!(wrap_coord(100, 100), 100);
    assert_eq!(wrap_coord(101, 100), -99);
    assert_eq!(wrap_coord(-101, 100), 99);
    assert_eq!(wrap_coord(1_050, 100), 50);
}

#[test]
fn boxes_overlap_is_strict_at_the_touching_edge() {
    let a = Vec2Fx { x: 0, y: 0 };
    let ha = Vec2Fx { x: 100, y: 100 };
    let hb = Vec2Fx { x: 50, y: 50 };
    assert!(boxes_overlap(a, ha, Vec2Fx { x: 149, y: 0 }, hb));
    assert!(!boxes_overlap(a, ha, Vec2Fx { x: 150, y: 0 }, hb));
    assert!(!boxes_overlap(a, ha, Vec2Fx { x: 0, y: 150 }, hb));
    assert!(boxes_overlap(a, ha, Vec2Fx { x: -149, y: -149 }, hb));
}

#[test]
fn atlas_indices_per_class() {
    assert_eq!(PlayerShipType::A.base_atlas_index(), 200);
    assert_eq!(PlayerShipType::B.base_atlas_index(), 207);
    assert_eq!(PlayerShipType::C.base_atlas_index(), 214);
    assert_eq!(PlayerShipType::A.life_atlas_index(), 188);
    assert_eq!(PlayerShipType::B.life_atlas_index(), 192);
    assert_eq!(PlayerShipType::C.life_atlas_index(), 196);
}

#[test]
fn all_ships_lists_every_class_in_order() {
    let all = PlayerShipType::all_ships();
    assert_eq!(all, vec![PlayerShipType::A, PlayerShipType::B, PlayerShipType::C]);
}

#[test]
fn every_class_shares_the_base_speeds() {
    for ship in PlayerShipType::all_ships() {
        let speed = ship.base_ship_speed();
        assert_eq!(speed.movement_speed, 500);
        assert_eq!(speed.rotation_speed, 1_000);
        let collider = ship.collider();
        assert_eq!(collider, Vec2Fx { x: 100_000, y: 300_000 });
    }
}

#[test]
fn ship_bundle_spawns_at_the_start_transform() {
    let bundle = ShipBundle::for_type(PlayerShipType::C);
    assert_eq!(bundle.transform.translation, Vec2Fx { x: 0, y: 0 });
    assert_eq!(bundle.transform.rotation, 0);
    assert_eq!(bundle.atlas_index, 214);
    assert!(!bundle.engine_fire.visible);
    let entity = bundle.into_entity();
    assert_eq!(entity.ship_type, PlayerShipType::C);
    assert_eq!(entity.collider, Vec2Fx { x: 100_000, y: 300_000 });
}
