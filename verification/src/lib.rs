//! Flocking motion for a population of agents in the plane.
//!
//! A [`Flock`] holds a position and a velocity for each agent. One call of
//! [`Flock::step`] gives every agent a new velocity, made of three rules
//! (cohesion, separation, alignment), a speed limit and the edges of the
//! world, and then moves every agent by its velocity.
//!
//! Every number is a binary64 value held as its bit pattern, a [`Scalar`].
//! The library decides by itself how two such numbers compare. Sums,
//! products and the like it asks of the caller: each function that computes
//! takes `arith`, a function from an [`Operation`] to its result, and states
//! what it returns over [`arith::meaning`] of that function. The module
//! [`laws`] holds what is proved of every flock and every arithmetic.

pub mod arith;
pub mod config;
pub mod flock;
pub mod laws;
pub mod rules;
pub mod scalar;
pub mod vec2;

pub use arith::Operation;
pub use config::BoidConfig;
pub use flock::Flock;
pub use scalar::Scalar;
pub use vec2::Vec2;
