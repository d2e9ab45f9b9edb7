//! Simulation core of a small 2D "Asteroids" arcade game.
//!
//! The playing field is a 1000 x 1000 square centered at the origin. All
//! positions, velocities and angles are held as fixed-point integers in
//! milli-units (one unit is 1000), so that the per-frame rules — spawning,
//! movement, boundary wrap and despawn, ammo bookkeeping, and collision
//! dispatch — can be stated and proved exactly. The hosting engine (window,
//! rendering, keyboard sampling, rigid-body physics) lives outside this
//! library: each frame it hands the core the elapsed time, the sampled key
//! state, the ship's facing vector, and the physics engine's touching sets,
//! and reads the entity arena back for display.

pub mod ammo;
pub mod asteroid;
pub mod bullet;
pub mod geom;
pub mod player;
pub mod rng;
pub mod world;
