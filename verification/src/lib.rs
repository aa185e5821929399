//! Fixed-timestep platformer physics on integers.
//!
//! Positions are whole pixels. Velocities and the sub-pixel remainder are
//! fixed-point: one velocity unit moves an entity by one remainder unit per
//! tick, and `Config::units_per_pixel` remainder units make one pixel. Every
//! tick an integrator updates the velocity, the resolver walks the entity
//! pixel by pixel against the solids, and a response reacts to the contact.
//!
//! The world's y axis points up while a positive vertical velocity is a
//! fall, so the Y pass of the resolver moves an entity toward smaller y for
//! a positive step count.

pub mod animation;
pub mod geometry;
pub mod integrator;
pub mod math;
pub mod resolver;
pub mod response;
pub mod state;
pub mod tick;
