//! A verified falling-sand sandbox: a fixed 200x150 cell grid whose colour
//! buffer doubles as the occupancy oracle, a closed set of particle species
//! with per-species movement rules, an insertion-ordered particle registry,
//! a sequential per-tick scheduler, a duplicate-rejecting spawn gate, and a
//! render pass that repaints the buffer from the registry each frame.

pub mod engine;
pub mod grid;
pub mod implparticles;
pub mod particle;
mod rng;
