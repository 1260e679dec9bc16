//! Simulation core of a small 2D space-invaders arcade game.
//!
//! The library owns everything with algorithmic content: velocity
//! integration, the input-driven paddle and fire actuators, the periodic
//! enemy spawner, axis-aligned bounding-box collision resolution (score,
//! lives, despawns), and the menu / in-game / game-over flow. Rendering,
//! audio and windowing are left to an outside engine, which only needs to
//! drive [`world::World::tick`] once per frame and display what the world
//! exposes.
//!
//! All geometry is integer-valued: coordinates and sizes are measured in
//! thousandths of a world unit, time in milliseconds, and speeds in world
//! units per second (numerically equal to thousandths per millisecond), so
//! one integration step is the exact product `velocity * dt`.

pub mod collision;
pub mod components;
pub mod constants;
pub mod geometry;
pub mod laws;
pub mod world;
