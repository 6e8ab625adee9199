//! Simulation core of a 2D arcade shooter.
//!
//! The library advances entity motion each tick, gates weapon fire by a
//! cooldown, resolves ship/projectile/hazard collisions, and drives the
//! ship-destruction, life-count and respawn state machine.  All quantities
//! are fixed-point integers: positions and direction vectors carry a scale
//! of 10_000 units per meter-equivalent, angles are microturns (one full
//! revolution is 1_000_000), and time is microseconds.  Trigonometry (the
//! unit vector of a heading) is supplied by the caller each tick, so every
//! state change in here is exact integer arithmetic with a proved contract.

pub mod collision;
pub mod controls;
pub mod geom;
pub mod laws;
pub mod masks;
pub mod ship;
pub mod world;
